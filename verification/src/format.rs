use crate::buffer::into_boxed_slice;
use crate::byte::{BYTE_IAC, BYTE_SB, BYTE_SE};
use crate::negotiation::Action;
use crate::option::TelnetOption;
use vstd::prelude::*;
use vstd::slice::slice_subrange;
use vstd::std_specs::convert::FromSpec;

verus! {

/// User data as it goes on the wire: every IAC doubled, every other byte
/// as it is.
pub open spec fn escape(data: Seq<u8>) -> Seq<u8>
    decreases data.len(),
{
    if data.len() == 0 {
        Seq::empty()
    } else if data.last() == BYTE_IAC {
        escape(data.drop_last()) + seq![BYTE_IAC, BYTE_IAC]
    } else {
        escape(data.drop_last()).push(data.last())
    }
}

/// The three bytes of a negotiation.
pub open spec fn negotiation_frame(action: Action, opt: TelnetOption) -> Seq<u8> {
    seq![BYTE_IAC, action.spec_as_byte(), opt.spec_as_byte()]
}

/// The bytes that open a sub-negotiation of an option.
pub open spec fn sub_negotiation_head(opt: TelnetOption) -> Seq<u8> {
    seq![BYTE_IAC, BYTE_SB, opt.spec_as_byte()]
}

/// The bytes that close a sub-negotiation.
pub open spec fn sub_negotiation_tail() -> Seq<u8> {
    seq![BYTE_IAC, BYTE_SE]
}

/// A whole sub-negotiation: head, escaped parameters, tail.
pub open spec fn sub_negotiation_frame(opt: TelnetOption, parameters: Seq<u8>) -> Seq<u8> {
    sub_negotiation_head(opt) + escape(parameters) + sub_negotiation_tail()
}

/// Whether `piece` is a part of `whole` that is not empty.
pub open spec fn part_of(piece: Seq<u8>, whole: Seq<u8>) -> bool {
    piece.len() > 0 && exists|start: int|
        0 <= start <= whole.len() - piece.len() && #[trigger] whole.subrange(
            start,
            start + piece.len(),
        ) == piece
}

/// Escaped data as a list of pieces of the buffer it was made from. Sent
/// one after the other, the pieces are the escaped data.
pub struct FormattedData<'a> {
    slices: Vec<&'a [u8]>,
}

/// The bytes of each piece.
pub open spec fn pieces(slices: Seq<&[u8]>) -> Seq<Seq<u8>> {
    slices.map_values(|slice: &[u8]| slice@)
}

/// One more piece at the end adds its bytes at the end.
proof fn lemma_flatten_push(parts: Seq<Seq<u8>>, part: Seq<u8>)
    ensures
        parts.push(part).flatten() == parts.flatten() + part,
{
    parts.lemma_flatten_and_flatten_alt_are_equivalent();
    parts.push(part).lemma_flatten_and_flatten_alt_are_equivalent();
    assert(parts.push(part).drop_last() =~= parts);
}

/// The pieces from one on are that piece and then those after it.
proof fn lemma_flatten_skip(parts: Seq<Seq<u8>>, count: int)
    requires
        0 <= count < parts.len(),
    ensures
        parts.skip(count).flatten() == parts[count] + parts.skip(count + 1).flatten(),
{
    assert(parts.skip(count).drop_first() =~= parts.skip(count + 1));
}

impl<'a> View for FormattedData<'a> {
    type V = Seq<Seq<u8>>;

    closed spec fn view(&self) -> Seq<Seq<u8>> {
        pieces(self.slices@)
    }
}

impl<'a> From<Vec<&'a [u8]>> for FormattedData<'a> {
    /// Takes the pieces as they are given.
    fn from(slices: Vec<&'a [u8]>) -> (formatted: FormattedData<'a>) {
        FormattedData { slices }
    }
}

impl<'a> vstd::std_specs::convert::FromSpecImpl<Vec<&'a [u8]>> for FormattedData<'a> {
    open spec fn obeys_from_spec() -> bool {
        true
    }

    closed spec fn from_spec(slices: Vec<&'a [u8]>) -> FormattedData<'a> {
        FormattedData { slices }
    }
}

/// The pieces of escaped data made from a list of slices are those slices.
pub proof fn lemma_from_slices(slices: Vec<&[u8]>)
    ensures
        FormattedData::from_spec(slices)@ == pieces(slices@),
{
}

impl<'a> FormattedData<'a> {
    /// All the pieces, one after the other.
    pub open spec fn bytes(&self) -> Seq<u8> {
        self@.flatten()
    }

    /// The pieces, in the order in which they are to be sent.
    pub fn into_slices(self) -> (slices: Vec<&'a [u8]>)
        ensures
            pieces(slices@) == self@,
    {
        self.slices
    }

    /// The escaped data in one piece.
    pub fn to_owned(self) -> (bytes: Box<[u8]>)
        ensures
            bytes@ == self.bytes(),
    {
        into_boxed_slice(self.append_to(Vec::new()))
    }

    /// `buffer` with the escaped data added at its end.
    fn append_to(self, buffer: Vec<u8>) -> (extended: Vec<u8>)
        ensures
            extended@ == buffer@ + self.bytes(),
    {
        let mut buffer = buffer;
        let ghost parts = self@;
        let ghost head = buffer@;
        let mut i: usize = 0;
        assert(parts.skip(0) =~= parts);
        while i < self.slices.len()
            invariant
                i <= self.slices@.len(),
                parts == pieces(self.slices@),
                buffer@ + parts.skip(i as int).flatten() == head + parts.flatten(),
            decreases self.slices@.len() - i,
        {
            buffer.extend_from_slice(self.slices[i]);
            proof {
                lemma_flatten_skip(parts, i as int);
            }
            i += 1;
        }
        buffer
    }
}

/// Escapes user data for the wire without copying it: each piece is a part
/// of `buffer`, and the pieces together are `buffer` with every IAC doubled.
pub fn data(buffer: &[u8]) -> (formatted: FormattedData<'_>)
    ensures
        formatted.bytes() == escape(buffer@),
        forall|i: int| 0 <= i < formatted@.len() ==> part_of(#[trigger] formatted@[i], buffer@),
{
    let mut slices: Vec<&[u8]> = Vec::new();
    let mut start: usize = 0;
    let mut i: usize = 0;
    while i < buffer.len()
        invariant
            start <= i <= buffer@.len(),
            pieces(slices@).flatten() + buffer@.subrange(start as int, i as int) == escape(
                buffer@.take(i as int),
            ),
            forall|k: int|
                0 <= k < slices@.len() ==> part_of(#[trigger] pieces(slices@)[k], buffer@),
        decreases buffer@.len() - i,
    {
        let ghost done = pieces(slices@);
        proof {
            assert(buffer@.take(i + 1).drop_last() =~= buffer@.take(i as int));
        }
        if buffer[i] == BYTE_IAC {
            let slice = slice_subrange(buffer, start, i + 1);
            slices.push(slice);
            proof {
                assert(pieces(slices@) =~= done.push(slice@));
                lemma_flatten_push(done, slice@);
                assert(buffer@.subrange(start as int, start + slice@.len()) == slice@);
            }
            start = i;
        }
        i += 1;
    }
    let ghost done = pieces(slices@);
    assert(buffer@.take(i as int) =~= buffer@);
    if start < buffer.len() {
        let slice = slice_subrange(buffer, start, buffer.len());
        slices.push(slice);
        proof {
            assert(pieces(slices@) =~= done.push(slice@));
            lemma_flatten_push(done, slice@);
            assert(buffer@.subrange(start as int, start + slice@.len()) == slice@);
        }
    }
    proof {
        lemma_from_slices(slices);
    }
    FormattedData::from(slices)
}

/// The frame of a negotiation: IAC, the action's byte, the option's code.
pub fn negotiation(action: Action, opt: TelnetOption) -> (frame: Box<[u8]>)
    ensures
        frame@ == negotiation_frame(action, opt),
{
    let mut frame: Vec<u8> = Vec::new();
    frame.push(BYTE_IAC);
    frame.push(action.as_byte());
    frame.push(opt.as_byte());
    into_boxed_slice(frame)
}

/// The frame of a sub-negotiation: IAC SB and the option's code, the
/// parameters with every IAC doubled, IAC SE.
pub fn sub_negotiation(opt: TelnetOption, parameters: &[u8]) -> (frame: Box<[u8]>)
    ensures
        frame@ == sub_negotiation_frame(opt, parameters@),
{
    let mut head: Vec<u8> = Vec::new();
    head.push(BYTE_IAC);
    head.push(BYTE_SB);
    head.push(opt.as_byte());
    let mut frame = data(parameters).append_to(head);
    frame.push(BYTE_IAC);
    frame.push(BYTE_SE);
    into_boxed_slice(frame)
}

} // verus!
