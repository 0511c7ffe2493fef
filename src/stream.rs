//! The stream adapter's decisions: what a non-blocking read or write reports
//! from the engine's answers, and the order in which formatted text reaches
//! the engine.
use vstd::prelude::*;
use vstd::string::StringSliceAdditionalSpecFns;

verus! {

/// `nb::Error`, the error of the `nb` crate's non-blocking results, declared
/// with its two public variants (`Other` and `WouldBlock`) visible, so that
/// results are built and compared here as the crate defines them.
#[verifier::external_type_specification]
#[verifier::reject_recursive_types(E)]
pub struct ExNbError<E>(nb::Error<E>);

/// The value the engine's byte fetch returns when it holds no byte.
pub const NO_BYTE: i16 = -1;

/// What a read does once the engine has said how many bytes it holds.
#[derive(Debug)]
pub enum ReadPlan {
    /// Fetch one byte, then call [`finish_read`] with what the fetch returned.
    Fetch,
    /// Report this result without touching the engine again.
    Reply(nb::Result<u8, ()>),
}

/// The result of a read, given the count of bytes the engine held and what
/// the fetch returned (never consulted when the count was zero).
pub open spec fn read_outcome(available: u8, fetched: i16) -> nb::Result<u8, ()> {
    if available == 0 || fetched == NO_BYTE {
        Err(nb::Error::WouldBlock)
    } else {
        Ok(fetched as u8)
    }
}

/// First half of a read: with nothing available the read would block and no
/// fetch is made.
pub fn plan_read(available: u8) -> (r: ReadPlan)
    ensures
        available == 0 ==> r == ReadPlan::Reply(Err(nb::Error::WouldBlock)),
        available != 0 ==> r == ReadPlan::Fetch,
        r matches ReadPlan::Reply(res) ==> forall|fetched: i16| res == read_outcome(available, fetched),
{
    if available == 0 {
        ReadPlan::Reply(Err(nb::Error::WouldBlock))
    } else {
        ReadPlan::Fetch
    }
}

/// Second half of a read: the fetched value is the byte, unless it is the
/// engine's "no byte" answer, which never becomes a byte.
pub fn finish_read(fetched: i16) -> (r: nb::Result<u8, ()>)
    ensures
        fetched == NO_BYTE ==> r == Err::<u8, nb::Error<()>>(nb::Error::WouldBlock),
        fetched != NO_BYTE ==> r == Ok::<u8, nb::Error<()>>(fetched as u8),
        forall|available: u8| available != 0 ==> r == read_outcome(available, fetched),
{
    if fetched == NO_BYTE {
        Err(nb::Error::WouldBlock)
    } else {
        Ok(fetched as u8)
    }
}

/// The result of a single-byte write from the status of the engine's
/// non-waiting put: zero means the byte was taken, anything else that the
/// output path is busy and the caller must offer the same byte again.
pub fn finish_write(status: i8) -> (r: nb::Result<(), ()>)
    ensures
        status == 0 ==> r == Ok::<(), nb::Error<()>>(()),
        status != 0 ==> r == Err::<(), nb::Error<()>>(nb::Error::WouldBlock),
{
    if status == 0 {
        Ok(())
    } else {
        Err(nb::Error::WouldBlock)
    }
}

/// Where a text delivery stands: the bytes to deliver and how many of them
/// the engine has taken.
pub type Delivery = (Seq<u8>, nat);

/// One offer of the pending byte, answered by `status`: a zero status means
/// the engine took it and the next byte becomes pending.
pub open spec fn after_put(d: Delivery, status: i8) -> Delivery {
    if d.1 < d.0.len() && status == 0 {
        (d.0, d.1 + 1)
    } else {
        d
    }
}

/// The bytes that one offer hands to the engine.
pub open spec fn taken_by_put(d: Delivery, status: i8) -> Seq<u8> {
    if d.1 < d.0.len() && status == 0 {
        seq![d.0[d.1 as int]]
    } else {
        seq![]
    }
}

/// Offering the pending byte once for each status in turn: where the delivery
/// ends, and the bytes the engine took, in the order it took them.
pub open spec fn run_puts(d: Delivery, statuses: Seq<i8>) -> (Delivery, Seq<u8>)
    decreases statuses.len(),
{
    if statuses.len() == 0 {
        (d, seq![])
    } else {
        let rest = run_puts(after_put(d, statuses[0]), statuses.drop_first());
        (rest.0, taken_by_put(d, statuses[0]) + rest.1)
    }
}

/// How many of the statuses report a byte taken.
pub open spec fn count_taken(statuses: Seq<i8>) -> nat
    decreases statuses.len(),
{
    if statuses.len() == 0 {
        0
    } else {
        (if statuses[0] == 0 { 1nat } else { 0nat }) + count_taken(statuses.drop_first())
    }
}

/// Delivers a text to the engine one byte at a time, in the byte-wise UTF-8
/// encoding of the text: the pending byte is offered until a put takes it,
/// then the next one, until none is left.
pub struct TextWriter<'a> {
    bytes: &'a [u8],
    sent: usize,
}

impl<'a> TextWriter<'a> {
    /// The bytes to deliver and how many of them were taken.
    pub closed spec fn delivery(&self) -> Delivery {
        (self.bytes@, self.sent as nat)
    }

    /// The count of taken bytes never passes the text's length.
    pub closed spec fn wf(&self) -> bool {
        self.sent <= self.bytes@.len()
    }

    /// Starts the delivery of `text`, with nothing taken yet.
    pub fn new(text: &'a str) -> (r: TextWriter<'a>)
        ensures
            r.wf(),
            r.delivery() == (text.spec_bytes(), 0nat),
    {
        TextWriter { bytes: text.as_bytes(), sent: 0 }
    }

    /// The byte to offer next, or `None` once every byte was taken.
    pub fn pending(&self) -> (r: Option<u8>)
        requires
            self.wf(),
        ensures
            self.delivery().1 < self.delivery().0.len() ==> r == Some(
                self.delivery().0[self.delivery().1 as int],
            ),
            self.delivery().1 >= self.delivery().0.len() ==> r is None,
    {
        if self.sent < self.bytes.len() {
            Some(self.bytes[self.sent])
        } else {
            None
        }
    }

    /// Whether every byte of the text was taken.
    pub fn is_done(&self) -> (r: bool)
        requires
            self.wf(),
        ensures
            r == (self.delivery().1 == self.delivery().0.len()),
    {
        self.sent == self.bytes.len()
    }

    /// Records the status that the engine's non-waiting put returned for the
    /// pending byte: a zero status moves on to the next byte, any other keeps
    /// the same byte pending.
    pub fn record(&mut self, status: i8)
        requires
            old(self).wf(),
        ensures
            final(self).wf(),
            final(self).delivery() == after_put(old(self).delivery(), status),
    {
        if self.sent < self.bytes.len() && status == 0 {
            self.sent = self.sent + 1;
        }
    }
}

proof fn lemma_run_puts_from(d: Delivery, statuses: Seq<i8>)
    requires
        d.1 <= d.0.len(),
    ensures
        run_puts(d, statuses).0.0 == d.0,
        d.1 <= run_puts(d, statuses).0.1 <= d.0.len(),
        run_puts(d, statuses).1 == d.0.subrange(d.1 as int, run_puts(d, statuses).0.1 as int),
        count_taken(statuses) >= d.0.len() - d.1 ==> run_puts(d, statuses).0.1 == d.0.len(),
    decreases statuses.len(),
{
    if statuses.len() > 0 {
        let next = after_put(d, statuses[0]);
        lemma_run_puts_from(next, statuses.drop_first());
        let end = run_puts(d, statuses).0.1 as int;
        assert(run_puts(d, statuses).1 =~= d.0.subrange(d.1 as int, end));
    } else {
        assert(d.0.subrange(d.1 as int, d.1 as int) =~= seq![]);
    }
}

/// Text written through a [`TextWriter`] reaches the engine as its UTF-8
/// bytes, in order: whatever the puts answer, the engine has taken exactly a
/// prefix of those bytes, and once the puts have taken as many bytes as the
/// text holds (as when the output path never runs out of room), the engine
/// has taken all of them.
pub proof fn lemma_text_arrives_in_order(text: &str, statuses: Seq<i8>)
    ensures
        run_puts((text.spec_bytes(), 0nat), statuses).1 == text.spec_bytes().take(
            run_puts((text.spec_bytes(), 0nat), statuses).0.1 as int,
        ),
        count_taken(statuses) >= text.spec_bytes().len() ==> run_puts(
            (text.spec_bytes(), 0nat),
            statuses,
        ).1 == text.spec_bytes(),
{
    let d: Delivery = (text.spec_bytes(), 0nat);
    lemma_run_puts_from(d, statuses);
    assert(d.0.subrange(0, d.0.len() as int) =~= d.0);
}

} // verus!
