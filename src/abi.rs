use crate::msg::Uint256;
use ethabi::ParamType;
use ethabi::Token::{Address, Array, Tuple, Uint};
use std::str::FromStr;
use vstd::prelude::*;
use vstd::string::StrSliceExecFns;

verus! {

/// Largest array that the encoder is handed: its offsets and lengths are
/// computed in 32-bit arithmetic.
pub const MAX_ARRAY_LEN: usize = 0x100_0000;

/// The argument schema of a remote function.
#[derive(Clone, Copy, Debug, PartialEq, Eq)]
pub enum CallShape {
    NoArgs,
    Address,
    Uint,
    AddressUint,
    /// One tuple of this many 256-bit integers.
    UintTuple(usize),
    /// One dynamic array of (address, 256-bit integer) tuples.
    AddressUintArray,
}

/// Argument values, one variant per supported call shape.
pub enum CallArgs {
    NoArgs,
    Address([u8; 20]),
    Uint(Uint256),
    AddressUint([u8; 20], Uint256),
    UintTuple(Vec<Uint256>),
    AddressUintArray(Vec<([u8; 20], Uint256)>),
}

pub open spec fn shape_of(args: CallArgs) -> CallShape {
    match args {
        CallArgs::NoArgs => CallShape::NoArgs,
        CallArgs::Address(_) => CallShape::Address,
        CallArgs::Uint(_) => CallShape::Uint,
        CallArgs::AddressUint(_, _) => CallShape::AddressUint,
        CallArgs::UintTuple(us) => CallShape::UintTuple(us.len()),
        CallArgs::AddressUintArray(_) => CallShape::AddressUintArray,
    }
}

impl CallArgs {
    pub fn shape(&self) -> (r: CallShape)
        ensures
            r == shape_of(*self),
    {
        match self {
            CallArgs::NoArgs => CallShape::NoArgs,
            CallArgs::Address(_) => CallShape::Address,
            CallArgs::Uint(_) => CallShape::Uint,
            CallArgs::AddressUint(_, _) => CallShape::AddressUint,
            CallArgs::UintTuple(us) => CallShape::UintTuple(us.len()),
            CallArgs::AddressUintArray(_) => CallShape::AddressUintArray,
        }
    }
}

/// `n` copies of `uint256`, separated by commas.
pub open spec fn uint_list(n: nat) -> Seq<char>
    decreases n,
{
    if n == 0 {
        Seq::empty()
    } else if n == 1 {
        "uint256"@
    } else {
        uint_list((n - 1) as nat) + ","@ + "uint256"@
    }
}

/// The canonical type list of a call shape, as it stands between the
/// parentheses of a signature.
pub open spec fn shape_types(shape: CallShape) -> Seq<char> {
    match shape {
        CallShape::NoArgs => Seq::empty(),
        CallShape::Address => "address"@,
        CallShape::Uint => "uint256"@,
        CallShape::AddressUint => "address,uint256"@,
        CallShape::UintTuple(n) => "("@ + uint_list(n as nat) + ")"@,
        CallShape::AddressUintArray => "(address,uint256)[]"@,
    }
}

/// The signature text `name(types)` that a selector is the digest of.
pub open spec fn signature_text(name: Seq<char>, shape: CallShape) -> Seq<char> {
    name + "("@ + shape_types(shape) + ")"@
}

/// The four-byte selector of the signature text: the head of its Keccak-256
/// digest.
pub uninterp spec fn selector_of(signature: Seq<char>) -> Seq<u8>;

/// A 32-byte big-endian word holding `n`.
pub open spec fn word_of(n: nat) -> Seq<u8> {
    Seq::new(32, |i: int| ((n as int / vstd::arithmetic::power::pow(256, (31 - i) as nat)) % 256) as u8)
}

/// An address, left-padded with zeros to a word.
pub open spec fn address_word(a: Seq<u8>) -> Seq<u8> {
    Seq::new(12, |i: int| 0u8) + a
}

/// The two words of an (address, integer) tuple.
pub open spec fn pair_words(p: ([u8; 20], Uint256)) -> Seq<u8> {
    address_word(p.0@) + p.1.be@
}

/// The ABI encoding of the arguments, without the selector.
pub open spec fn args_encoding(args: CallArgs) -> Seq<u8> {
    match args {
        CallArgs::NoArgs => Seq::empty(),
        CallArgs::Address(a) => address_word(a@),
        CallArgs::Uint(u) => u.be@,
        CallArgs::AddressUint(a, u) => address_word(a@) + u.be@,
        CallArgs::UintTuple(us) => us@.map_values(|u: Uint256| u.be@).flatten(),
        CallArgs::AddressUintArray(ps) => word_of(32) + word_of(ps.len() as nat) + ps@.map_values(
            |p: ([u8; 20], Uint256)| pair_words(p),
        ).flatten(),
    }
}

/// The calldata of a call to `name` with `args`: selector, then arguments.
pub open spec fn call_payload(name: Seq<char>, args: CallArgs) -> Seq<u8> {
    selector_of(signature_text(name, shape_of(args))) + args_encoding(args)
}

pub open spec fn args_fit(args: CallArgs) -> bool {
    match args {
        CallArgs::UintTuple(us) => us.len() <= MAX_ARRAY_LEN,
        CallArgs::AddressUintArray(ps) => ps.len() <= MAX_ARRAY_LEN,
        _ => true,
    }
}

pub open spec fn is_hex_blank(c: char) -> bool {
    c == ' ' || c == '\r' || c == '\n' || c == '\t'
}

pub open spec fn is_hex_digit(c: char) -> bool {
    ('0' <= c && c <= '9') || ('a' <= c && c <= 'f') || ('A' <= c && c <= 'F')
}

pub open spec fn hex_value(c: char) -> int {
    if '0' <= c && c <= '9' {
        c as int - '0' as int
    } else if 'a' <= c && c <= 'f' {
        c as int - 'a' as int + 10
    } else {
        c as int - 'A' as int + 10
    }
}

/// The digits that the outside hex parser reads from a text: an optional
/// `0x` prefix dropped, blanks skipped. The library itself accepts only
/// canonical text (`is_canonical_address`), where nothing is skipped.
pub open spec fn address_digits(s: Seq<char>) -> Seq<char> {
    let body = if s.len() >= 2 && s[0] == '0' && s[1] == 'x' {
        s.subrange(2, s.len() as int)
    } else {
        s
    };
    body.filter(|c: char| !is_hex_blank(c))
}

/// What the outside hex parser accepts: exactly forty hex digits once the
/// prefix and any blanks are set aside.
pub open spec fn is_address_text(s: Seq<char>) -> bool {
    let d = address_digits(s);
    d.len() == 40 && forall|i: int| 0 <= i < 40 ==> is_hex_digit(#[trigger] d[i])
}

/// The twenty bytes that a valid address text spells, two digits each.
pub open spec fn address_bytes(s: Seq<char>) -> Seq<u8> {
    let d = address_digits(s);
    Seq::new(20, |i: int| (hex_value(d[2 * i]) * 16 + hex_value(d[2 * i + 1])) as u8)
}

/// The hex part of an address text: the text less one leading `0x`.
pub open spec fn address_body(s: Seq<char>) -> Seq<char> {
    if s.len() >= 2 && s[0] == '0' && s[1] == 'x' {
        s.subrange(2, s.len() as int)
    } else {
        s
    }
}

/// The canonical form of an address: an optional `0x`, then exactly forty hex
/// digits of either case, and nothing else.
pub open spec fn is_canonical_address(s: Seq<char>) -> bool {
    let b = address_body(s);
    b.len() == 40 && forall|i: int| 0 <= i < 40 ==> is_hex_digit(#[trigger] b[i])
}

proof fn lemma_filter_keeps_all(s: Seq<char>)
    requires
        forall|i: int| 0 <= i < s.len() ==> !is_hex_blank(#[trigger] s[i]),
    ensures
        s.filter(|c: char| !is_hex_blank(c)) == s,
    decreases s.len(),
{
    reveal(Seq::filter);
    if s.len() > 0 {
        assert forall|i: int| 0 <= i < s.drop_last().len() implies !is_hex_blank(
            #[trigger] s.drop_last()[i],
        ) by {
            assert(s.drop_last()[i] == s[i]);
        }
        lemma_filter_keeps_all(s.drop_last());
        let pred = |c: char| !is_hex_blank(c);
        assert(!is_hex_blank(s[s.len() - 1]));
        assert(pred(s.last()));
        assert(s.filter(pred) == s.drop_last().filter(pred).push(s.last()));
        assert(s.drop_last().push(s.last()) =~= s);
    }
}

/// A canonical address text is one that the outside parser accepts, with
/// nothing skipped.
proof fn lemma_canonical_is_address_text(s: Seq<char>)
    requires
        is_canonical_address(s),
    ensures
        is_address_text(s),
        address_digits(s) == address_body(s),
{
    let b = address_body(s);
    assert forall|i: int| 0 <= i < b.len() implies !is_hex_blank(#[trigger] b[i]) by {
        assert(is_hex_digit(b[i]));
    }
    lemma_filter_keeps_all(b);
}

/// Whether a text is an address in canonical form.
pub fn is_canonical_address_text(text: &str) -> (r: bool)
    ensures
        r == is_canonical_address(text@),
{
    let n = text.unicode_len();
    let start: usize = if n >= 2 && text.get_char(0) == '0' && text.get_char(1) == 'x' {
        2
    } else {
        0
    };
    let ghost b = address_body(text@);
    assert(b =~= text@.subrange(start as int, n as int));
    if n - start != 40 {
        return false;
    }
    let mut i: usize = start;
    while i < n
        invariant
            start <= i <= n,
            n == text@.len(),
            n - start == 40,
            b == text@.subrange(start as int, n as int),
            forall|k: int| 0 <= k < i - start ==> is_hex_digit(#[trigger] b[k]),
        decreases n - i,
    {
        let c = text.get_char(i);
        assert(b[i - start] == c);
        if !(('0' <= c && c <= '9') || ('a' <= c && c <= 'f') || ('A' <= c && c <= 'F')) {
            return false;
        }
        i = i + 1;
    }
    true
}

/// Relies on `ethabi::Address::from_str` (fixed-hash over rustc-hex): it drops
/// one leading `0x`, skips blanks, and accepts exactly forty hex digits of
/// either case, read two to a byte.
#[verifier::external_body]
fn parse_address(text: &str) -> (r: Option<[u8; 20]>)
    ensures
        r.is_some() == is_address_text(text@),
        r.is_some() ==> r.unwrap()@ == address_bytes(text@),
{
    ethabi::Address::from_str(text).ok().map(|a| a.0)
}

/// Relies on `ethabi::short_signature`: the first four bytes of the
/// Keccak-256 digest of the text `name(types)`, which depends on that text
/// alone.
#[verifier::external_body]
fn selector(name: &str, shape: CallShape) -> (r: [u8; 4])
    ensures
        r@ == selector_of(signature_text(name@, shape)),
{
    let (a, u) = (ParamType::Address, ParamType::Uint(256));
    let params = match shape {
        CallShape::NoArgs => vec![],
        CallShape::Address => vec![a],
        CallShape::Uint => vec![u],
        CallShape::AddressUint => vec![a, u],
        CallShape::UintTuple(n) => vec![ParamType::Tuple(vec![u; n])],
        CallShape::AddressUintArray => vec![ParamType::Array(Box::new(ParamType::Tuple(vec![a, u])))],
    };
    ethabi::short_signature(name, &params)
}

/// Relies on `ethabi::encode`: a static value fills one 32-byte word (an
/// address right-aligned, an integer big-endian), a static tuple lies in place,
/// and a dynamic array is an offset word, a length word and its elements.
#[verifier::external_body]
fn encode_args(args: &CallArgs) -> (r: Vec<u8>)
    requires
        args_fit(*args),
    ensures
        r@ == args_encoding(*args),
{
    let word = |u: &Uint256| Uint(u.be.into());
    let pair = |a: &[u8; 20], u: &Uint256| vec![Address(a.into()), word(u)];
    ethabi::encode(&match args {
        CallArgs::Address(a) => vec![Address(a.into())],
        CallArgs::Uint(u) => vec![word(u)],
        CallArgs::AddressUint(a, u) => pair(a, u),
        CallArgs::UintTuple(us) => vec![Tuple(us.iter().map(word).collect())],
        CallArgs::AddressUintArray(ps) => vec![Array(ps.iter().map(|(a, u)| Tuple(pair(a, u))).collect())],
        CallArgs::NoArgs => vec![],
    })
}

/// Parses an address in canonical form into its twenty bytes; any other
/// text, blanks included, is refused.
pub fn address_from_text(text: &String) -> (r: Option<[u8; 20]>)
    ensures
        r.is_some() == is_canonical_address(text@),
        r.is_some() ==> r.unwrap()@ == address_bytes(text@),
{
    if !is_canonical_address_text(text.as_str()) {
        return None;
    }
    proof {
        lemma_canonical_is_address_text(text@);
    }
    parse_address(text.as_str())
}

/// The calldata of a call to `name` with `args`.
pub fn encode_call(name: &str, args: &CallArgs) -> (r: Vec<u8>)
    requires
        args_fit(*args),
    ensures
        r@ == call_payload(name@, *args),
        selector_of(signature_text(name@, shape_of(*args))).len() == 4,
{
    let sel = selector(name, args.shape());
    let mut encoded = encode_args(args);
    let mut out: Vec<u8> = Vec::new();
    out.push(sel[0]);
    out.push(sel[1]);
    out.push(sel[2]);
    out.push(sel[3]);
    assert(out@ =~= sel@);
    out.append(&mut encoded);
    out
}

} // verus!
