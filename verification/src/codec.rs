//! The byte layout of a stored listing.
//!
//! A record is, in order: the identifier, the starting price and the current
//! price as eight little-endian bytes each; the sold flag as one byte, `0` or
//! `1`; the owner and then the title, each as an eight-byte little-endian
//! length followed by that many bytes; and the description, which takes the
//! rest. Title and description are UTF-8.

use crate::identity::Identity;
use crate::listing::{Listing, ListingView};
use crate::stable::MAX_VALUE_LEN;
use vstd::bytes::{
    lemma_auto_spec_u64_to_from_le_bytes, spec_u64_from_le_bytes, spec_u64_to_le_bytes,
    u64_from_le_bytes, u64_to_le_bytes,
};
use vstd::prelude::*;
use vstd::slice::{slice_subrange, slice_to_vec};
use vstd::utf8::{
    decode_utf8, decode_utf8_encode_utf8, encode_utf8, encode_utf8_decode_utf8,
    encode_utf8_valid_utf8, valid_utf8,
};

verus! {

/// Bytes of a record that do not depend on its texts or its owner.
pub const FIXED_LEN: u64 = 41;

/// The byte that stands for a sold flag.
pub open spec fn flag_byte(sold: bool) -> u8 {
    if sold {
        1
    } else {
        0
    }
}

/// `rest` behind the eight bytes of `x`.
pub open spec fn put_u64(x: u64, rest: Seq<u8>) -> Seq<u8> {
    spec_u64_to_le_bytes(x) + rest
}

/// `rest` behind the byte of a flag.
pub open spec fn put_flag(sold: bool, rest: Seq<u8>) -> Seq<u8> {
    seq![flag_byte(sold)] + rest
}

/// `rest` behind a length-prefixed block.
pub open spec fn put_block(block: Seq<u8>, rest: Seq<u8>) -> Seq<u8> {
    spec_u64_to_le_bytes(block.len() as u64) + (block + rest)
}

/// The record that stands for a listing.
pub open spec fn encode_listing(v: ListingView) -> Seq<u8> {
    put_u64(
        v.id,
        put_u64(
            v.starting_price,
            put_u64(
                v.current_price,
                put_flag(
                    v.sold,
                    put_block(v.owner, put_block(encode_utf8(v.title), encode_utf8(v.description))),
                ),
            ),
        ),
    )
}

/// Length of the record that stands for a listing.
pub open spec fn record_len(v: ListingView) -> nat {
    FIXED_LEN as nat + v.owner.len() + encode_utf8(v.title).len() + encode_utf8(
        v.description,
    ).len()
}

/// Splits eight bytes off the front and reads them as a number.
pub open spec fn take_u64(b: Seq<u8>) -> Option<(u64, Seq<u8>)> {
    if b.len() >= 8 {
        Some((spec_u64_from_le_bytes(b.take(8)), b.skip(8)))
    } else {
        None
    }
}

/// Splits a flag byte off the front. Any byte but `0` and `1` is refused.
pub open spec fn take_flag(b: Seq<u8>) -> Option<(bool, Seq<u8>)> {
    if b.len() >= 1 && b[0] <= 1 {
        Some((b[0] == 1, b.skip(1)))
    } else {
        None
    }
}

/// Splits a length-prefixed block off the front.
pub open spec fn take_block(b: Seq<u8>) -> Option<(Seq<u8>, Seq<u8>)> {
    match take_u64(b) {
        Some((n, rest)) => if n <= rest.len() {
            Some((rest.take(n as int), rest.skip(n as int)))
        } else {
            None
        },
        None => None,
    }
}

/// What is left after a step, or nothing where the step failed.
pub open spec fn rest_of<T>(step: Option<(T, Seq<u8>)>) -> Seq<u8> {
    match step {
        Some((_, rest)) => rest,
        None => Seq::empty(),
    }
}

/// The listing that a record stands for, if it is a well-formed record.
pub open spec fn decode_listing(b: Seq<u8>) -> Option<ListingView> {
    let id = take_u64(b);
    let starting_price = take_u64(rest_of(id));
    let current_price = take_u64(rest_of(starting_price));
    let sold = take_flag(rest_of(current_price));
    let owner = take_block(rest_of(sold));
    let title = take_block(rest_of(owner));
    let description = rest_of(title);
    if id is Some && starting_price is Some && current_price is Some && sold is Some
        && owner is Some && title is Some && valid_utf8(title.unwrap().0) && valid_utf8(description) {
        Some(
            ListingView {
                id: id.unwrap().0,
                title: decode_utf8(title.unwrap().0),
                description: decode_utf8(description),
                starting_price: starting_price.unwrap().0,
                current_price: current_price.unwrap().0,
                sold: sold.unwrap().0,
                owner: owner.unwrap().0,
            },
        )
    } else {
        None
    }
}

proof fn lemma_take_put_u64(x: u64, rest: Seq<u8>)
    ensures
        take_u64(put_u64(x, rest)) == Some((x, rest)),
{
    lemma_auto_spec_u64_to_from_le_bytes();
    let b = put_u64(x, rest);
    assert(b.take(8) =~= spec_u64_to_le_bytes(x));
    assert(b.skip(8) =~= rest);
}

proof fn lemma_take_put_flag(sold: bool, rest: Seq<u8>)
    ensures
        take_flag(put_flag(sold, rest)) == Some((sold, rest)),
{
    assert(put_flag(sold, rest).skip(1) =~= rest);
}

proof fn lemma_take_put_block(block: Seq<u8>, rest: Seq<u8>)
    requires
        block.len() <= u64::MAX,
    ensures
        take_block(put_block(block, rest)) == Some((block, rest)),
{
    lemma_take_put_u64(block.len() as u64, block + rest);
    assert((block + rest).take(block.len() as int) =~= block);
    assert((block + rest).skip(block.len() as int) =~= rest);
}

proof fn lemma_put_take_u64(b: Seq<u8>)
    requires
        take_u64(b) is Some,
    ensures
        put_u64(take_u64(b).unwrap().0, take_u64(b).unwrap().1) == b,
{
    lemma_auto_spec_u64_to_from_le_bytes();
    assert(b.take(8).len() == 8);
    assert(b.take(8) + b.skip(8) =~= b);
    assert(spec_u64_to_le_bytes(spec_u64_from_le_bytes(b.take(8))) == b.take(8));
}

proof fn lemma_put_take_flag(b: Seq<u8>)
    requires
        take_flag(b) is Some,
    ensures
        put_flag(take_flag(b).unwrap().0, take_flag(b).unwrap().1) == b,
{
    assert(seq![b[0]] + b.skip(1) =~= b);
}

proof fn lemma_put_take_block(b: Seq<u8>)
    requires
        take_block(b) is Some,
    ensures
        put_block(take_block(b).unwrap().0, take_block(b).unwrap().1) == b,
{
    lemma_put_take_u64(b);
    let n = take_u64(b).unwrap().0;
    let rest = take_u64(b).unwrap().1;
    assert(rest.take(n as int) + rest.skip(n as int) =~= rest);
}

/// Decoding undoes encoding: a listing whose owner and texts are short
/// enough for their lengths to be written down is read back unchanged.
pub proof fn lemma_decode_encode(v: ListingView)
    requires
        v.owner.len() <= u64::MAX,
        encode_utf8(v.title).len() <= u64::MAX,
    ensures
        decode_listing(encode_listing(v)) == Some(v),
{
    let title = encode_utf8(v.title);
    let description = encode_utf8(v.description);
    let b5 = put_block(title, description);
    let b4 = put_block(v.owner, b5);
    let b3 = put_flag(v.sold, b4);
    let b2 = put_u64(v.current_price, b3);
    let b1 = put_u64(v.starting_price, b2);
    lemma_take_put_u64(v.id, b1);
    lemma_take_put_u64(v.starting_price, b2);
    lemma_take_put_u64(v.current_price, b3);
    lemma_take_put_flag(v.sold, b4);
    lemma_take_put_block(v.owner, b5);
    lemma_take_put_block(title, description);
    encode_utf8_valid_utf8(v.title);
    encode_utf8_valid_utf8(v.description);
    encode_utf8_decode_utf8(v.title);
    encode_utf8_decode_utf8(v.description);
}

/// Encoding undoes decoding: only one record stands for a listing, so a
/// record that decodes is exactly the encoding of what it decodes to.
pub proof fn lemma_encode_decode(b: Seq<u8>)
    requires
        decode_listing(b) is Some,
    ensures
        encode_listing(decode_listing(b)->0) == b,
        record_len(decode_listing(b)->0) == b.len(),
{
    lemma_auto_spec_u64_to_from_le_bytes();
    let id = take_u64(b);
    let starting_price = take_u64(rest_of(id));
    let current_price = take_u64(rest_of(starting_price));
    let sold = take_flag(rest_of(current_price));
    let owner = take_block(rest_of(sold));
    let title = take_block(rest_of(owner));
    lemma_put_take_u64(b);
    lemma_put_take_u64(rest_of(id));
    lemma_put_take_u64(rest_of(starting_price));
    lemma_put_take_flag(rest_of(current_price));
    lemma_put_take_block(rest_of(sold));
    lemma_put_take_block(rest_of(owner));
    decode_utf8_encode_utf8(title.unwrap().0);
    decode_utf8_encode_utf8(rest_of(title));
}

/// The length of an encoding is the length that `record_len` gives.
pub proof fn lemma_encoded_len(v: ListingView)
    ensures
        encode_listing(v).len() == record_len(v),
{
    lemma_auto_spec_u64_to_from_le_bytes();
}

/// Calls `String::from_utf8`.
///
/// Believed, not proved: the result is a string exactly when the bytes are
/// valid UTF-8, and that string's UTF-8 encoding is then the bytes given.
#[verifier::external_body]
fn text_from_utf8(bytes: Vec<u8>) -> (text: Option<String>)
    ensures
        text is Some <==> valid_utf8(bytes@),
        text is Some ==> encode_utf8(text->0@) == bytes@,
{
    String::from_utf8(bytes).ok()
}

/// Copies `src` to the end of `dst`.
fn append(dst: &mut Vec<u8>, src: &[u8])
    ensures
        final(dst)@ == old(dst)@ + src@,
{
    let mut i: usize = 0;
    while i < src.len()
        invariant
            i <= src.len(),
            dst@ == old(dst)@ + src@.take(i as int),
        decreases src.len() - i,
    {
        dst.push(src[i]);
        i += 1;
        assert(dst@ =~= old(dst)@ + src@.take(i as int));
    }
    assert(src@.take(src.len() as int) =~= src@);
}

/// Reads a number off the front of `b`.
fn read_u64<'a>(b: &'a [u8]) -> (step: Option<(u64, &'a [u8])>)
    ensures
        match step {
            Some((x, rest)) => take_u64(b@) == Some((x, rest@)),
            None => take_u64(b@) is None,
        },
{
    if b.len() < 8 {
        return None;
    }
    let x = u64_from_le_bytes(slice_subrange(b, 0, 8));
    let rest = slice_subrange(b, 8, b.len());
    Some((x, rest))
}

/// Reads a flag off the front of `b`.
fn read_flag<'a>(b: &'a [u8]) -> (step: Option<(bool, &'a [u8])>)
    ensures
        match step {
            Some((sold, rest)) => take_flag(b@) == Some((sold, rest@)),
            None => take_flag(b@) is None,
        },
{
    if b.len() < 1 || b[0] > 1 {
        return None;
    }
    Some((b[0] == 1, slice_subrange(b, 1, b.len())))
}

/// Reads a length-prefixed block off the front of `b`.
fn read_block<'a>(b: &'a [u8]) -> (step: Option<(&'a [u8], &'a [u8])>)
    ensures
        match step {
            Some((block, rest)) => take_block(b@) == Some((block@, rest@)),
            None => take_block(b@) is None,
        },
{
    match read_u64(b) {
        Some((n, rest)) => {
            if n > rest.len() as u64 {
                return None;
            }
            let cut = n as usize;
            Some((slice_subrange(rest, 0, cut), slice_subrange(rest, cut, rest.len())))
        },
        None => None,
    }
}

/// Whether a record with an owner and texts of these lengths, in bytes, is
/// short enough to be stored.
pub fn lengths_fit(owner: usize, title: usize, description: usize) -> (fits: bool)
    ensures
        fits == (FIXED_LEN + owner + title + description <= MAX_VALUE_LEN),
{
    let limit: u64 = MAX_VALUE_LEN - FIXED_LEN;
    if owner as u64 > limit {
        return false;
    }
    let left: u64 = limit - owner as u64;
    if title as u64 > left {
        return false;
    }
    description as u64 <= left - title as u64
}

impl Listing {
    /// The record that stands for this listing.
    pub fn to_bytes(&self) -> (bytes: Vec<u8>)
        ensures
            bytes@ == encode_listing(self@),
    {
        let owner = self.owner.as_bytes();
        let title = self.title.as_str().as_bytes();
        let description = self.description.as_str().as_bytes();
        let mut bytes: Vec<u8> = Vec::new();
        append(&mut bytes, u64_to_le_bytes(self.id).as_slice());
        append(&mut bytes, u64_to_le_bytes(self.starting_price).as_slice());
        append(&mut bytes, u64_to_le_bytes(self.current_price).as_slice());
        bytes.push(if self.sold { 1 } else { 0 });
        append(&mut bytes, u64_to_le_bytes(owner.len() as u64).as_slice());
        append(&mut bytes, owner);
        append(&mut bytes, u64_to_le_bytes(title.len() as u64).as_slice());
        append(&mut bytes, title);
        append(&mut bytes, description);
        assert(bytes@ =~= encode_listing(self@));
        bytes
    }

    /// The listing that `bytes` stand for, or `None` where they are not a
    /// record.
    pub fn from_bytes(bytes: &[u8]) -> (listing: Option<Listing>)
        ensures
            match listing {
                Some(l) => decode_listing(bytes@) == Some(l@),
                None => decode_listing(bytes@) is None,
            },
    {
        let (id, rest) = match read_u64(bytes) {
            Some(step) => step,
            None => return None,
        };
        let (starting_price, rest) = match read_u64(rest) {
            Some(step) => step,
            None => return None,
        };
        let (current_price, rest) = match read_u64(rest) {
            Some(step) => step,
            None => return None,
        };
        let (sold, rest) = match read_flag(rest) {
            Some(step) => step,
            None => return None,
        };
        let (owner, rest) = match read_block(rest) {
            Some(step) => step,
            None => return None,
        };
        let (title, description) = match read_block(rest) {
            Some(step) => step,
            None => return None,
        };
        let title = match text_from_utf8(slice_to_vec(title)) {
            Some(text) => text,
            None => return None,
        };
        let description = match text_from_utf8(slice_to_vec(description)) {
            Some(text) => text,
            None => return None,
        };
        proof {
            encode_utf8_decode_utf8(title@);
            encode_utf8_decode_utf8(description@);
        }
        Some(
            Listing {
                id,
                title,
                description,
                starting_price,
                current_price,
                sold,
                owner: Identity::new(slice_to_vec(owner)),
            },
        )
    }

    /// Whether the record of this listing is short enough to be stored.
    pub fn fits(&self) -> (fits: bool)
        ensures
            fits == (record_len(self@) <= MAX_VALUE_LEN),
    {
        lengths_fit(
            self.owner.as_bytes().len(),
            self.title.as_str().as_bytes().len(),
            self.description.as_str().as_bytes().len(),
        )
    }
}

} // verus!
