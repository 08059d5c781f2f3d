//! Ordering of text by the bytes of its UTF-8 encoding.

use core::cmp::Ordering;
use vstd::prelude::*;

verus! {

/// `left` comes before `right` in lexicographic order: at the first position where
/// the two differ `left` holds the smaller byte, or `left` ends there.
pub open spec fn bytes_less(left: Seq<u8>, right: Seq<u8>) -> bool
    decreases left.len(),
{
    if right.len() == 0 {
        false
    } else if left.len() == 0 {
        true
    } else if left[0] != right[0] {
        left[0] < right[0]
    } else {
        bytes_less(left.drop_first(), right.drop_first())
    }
}

/// `left` comes before `right` in the order of their UTF-8 bytes.
pub open spec fn text_less(left: Seq<char>, right: Seq<char>) -> bool {
    bytes_less(vstd::utf8::encode_utf8(left), vstd::utf8::encode_utf8(right))
}

/// The order of text that may be absent: absence comes before any text.
pub open spec fn optional_text_less(left: Option<Seq<char>>, right: Option<Seq<char>>) -> bool {
    match (left, right) {
        (None, None) => false,
        (None, Some(_)) => true,
        (Some(_), None) => false,
        (Some(l), Some(r)) => text_less(l, r),
    }
}

proof fn lemma_bytes_less_total(left: Seq<u8>, right: Seq<u8>)
    ensures
        !(bytes_less(left, right) && bytes_less(right, left)),
        bytes_less(left, right) || bytes_less(right, left) || left == right,
        left == right ==> !bytes_less(left, right),
    decreases left.len(),
{
    if left.len() > 0 && right.len() > 0 {
        lemma_bytes_less_total(left.drop_first(), right.drop_first());
        if left[0] == right[0] && left.drop_first() == right.drop_first() {
            assert(left =~= seq![left[0]] + left.drop_first());
            assert(right =~= seq![right[0]] + right.drop_first());
        }
    } else if left.len() == 0 && right.len() == 0 {
        assert(left =~= right);
    }
}

proof fn lemma_bytes_less_transitive(a: Seq<u8>, b: Seq<u8>, c: Seq<u8>)
    requires
        bytes_less(a, b),
        bytes_less(b, c),
    ensures
        bytes_less(a, c),
    decreases a.len(),
{
    if a.len() > 0 && a[0] == b[0] && b[0] == c[0] {
        lemma_bytes_less_transitive(a.drop_first(), b.drop_first(), c.drop_first());
    }
}

/// Of two texts exactly one of three things holds: the first comes before the second,
/// the second comes before the first, or they are the same text.
pub proof fn text_order_is_total(left: Seq<char>, right: Seq<char>)
    ensures
        !(text_less(left, right) && text_less(right, left)),
        text_less(left, right) || text_less(right, left) || left == right,
        left == right ==> !text_less(left, right),
{
    broadcast use vstd::utf8::encode_utf8_decode_utf8;

    lemma_bytes_less_total(vstd::utf8::encode_utf8(left), vstd::utf8::encode_utf8(right));
    assert(vstd::utf8::decode_utf8(vstd::utf8::encode_utf8(left)) == left);
    assert(vstd::utf8::decode_utf8(vstd::utf8::encode_utf8(right)) == right);
}

/// The order of texts is transitive.
pub proof fn text_order_is_transitive(a: Seq<char>, b: Seq<char>, c: Seq<char>)
    requires
        text_less(a, b),
        text_less(b, c),
    ensures
        text_less(a, c),
{
    lemma_bytes_less_transitive(
        vstd::utf8::encode_utf8(a),
        vstd::utf8::encode_utf8(b),
        vstd::utf8::encode_utf8(c),
    );
}

/// Of two optional texts exactly one of three things holds: the first comes before the
/// second, the second comes before the first, or they are the same.
pub proof fn optional_text_order_is_total(left: Option<Seq<char>>, right: Option<Seq<char>>)
    ensures
        !(optional_text_less(left, right) && optional_text_less(right, left)),
        optional_text_less(left, right) || optional_text_less(right, left) || left == right,
        left == right ==> !optional_text_less(left, right),
{
    if let (Some(l), Some(r)) = (left, right) {
        text_order_is_total(l, r);
    }
}

/// The order of optional texts is transitive.
pub proof fn optional_text_order_is_transitive(
    a: Option<Seq<char>>,
    b: Option<Seq<char>>,
    c: Option<Seq<char>>,
)
    requires
        optional_text_less(a, b),
        optional_text_less(b, c),
    ensures
        optional_text_less(a, c),
{
    if let (Some(x), Some(y), Some(z)) = (a, b, c) {
        text_order_is_transitive(x, y, z);
    }
}

/// Whether `left` comes before `right` in lexicographic order.
fn bytes_precede(left: &[u8], right: &[u8]) -> (less: bool)
    ensures
        less == bytes_less(left@, right@),
{
    let mut i: usize = 0;
    assert(left@.skip(0) =~= left@);
    assert(right@.skip(0) =~= right@);
    while i < left.len() && i < right.len()
        invariant
            i <= left@.len(),
            i <= right@.len(),
            bytes_less(left@, right@) == bytes_less(left@.skip(i as int), right@.skip(i as int)),
        decreases left@.len() - i,
    {
        assert(left@.skip(i as int)[0] == left@[i as int]);
        assert(right@.skip(i as int)[0] == right@[i as int]);
        if left[i] != right[i] {
            return left[i] < right[i];
        }
        assert(left@.skip(i as int).drop_first() =~= left@.skip(i + 1));
        assert(right@.skip(i as int).drop_first() =~= right@.skip(i + 1));
        i = i + 1;
    }
    left.len() < right.len()
}

/// Compares two texts by their UTF-8 bytes.
pub fn compare_text(left: &str, right: &str) -> (order: Ordering)
    ensures
        (order is Less) == text_less(left@, right@),
        (order is Greater) == text_less(right@, left@),
        (order is Equal) == (left@ == right@),
{
    proof {
        text_order_is_total(left@, right@);
    }
    if bytes_precede(left.as_bytes(), right.as_bytes()) {
        Ordering::Less
    } else if bytes_precede(right.as_bytes(), left.as_bytes()) {
        Ordering::Greater
    } else {
        Ordering::Equal
    }
}

/// Compares two optional texts: absence comes first, texts by their UTF-8 bytes.
pub fn compare_optional_text(left: &Option<String>, right: &Option<String>) -> (order: Ordering)
    ensures
        (order is Less) == optional_text_less(optional_text(*left), optional_text(*right)),
        (order is Greater) == optional_text_less(optional_text(*right), optional_text(*left)),
        (order is Equal) == (optional_text(*left) == optional_text(*right)),
{
    match (left, right) {
        (None, None) => Ordering::Equal,
        (None, Some(_)) => Ordering::Less,
        (Some(_), None) => Ordering::Greater,
        (Some(l), Some(r)) => compare_text(l.as_str(), r.as_str()),
    }
}

/// The text that an optional string holds.
pub open spec fn optional_text(text: Option<String>) -> Option<Seq<char>> {
    match text {
        Some(t) => Some(t@),
        None => None,
    }
}

/// The decimal digit of a number below ten.
pub open spec fn digit(n: u64) -> char {
    match n {
        0 => '0',
        1 => '1',
        2 => '2',
        3 => '3',
        4 => '4',
        5 => '5',
        6 => '6',
        7 => '7',
        8 => '8',
        _ => '9',
    }
}

/// The decimal digits of a number, most significant first, without leading zeros.
pub open spec fn decimal(n: u64) -> Seq<char>
    decreases n,
{
    if n < 10 {
        seq![digit(n)]
    } else {
        decimal(n / 10).push(digit(n % 10))
    }
}

/// The text of one decimal digit.
fn digit_text(n: u64) -> (text: &'static str)
    requires
        n < 10,
    ensures
        text@ == seq![digit(n)],
{
    proof {
        reveal_strlit("0");
        reveal_strlit("1");
        reveal_strlit("2");
        reveal_strlit("3");
        reveal_strlit("4");
        reveal_strlit("5");
        reveal_strlit("6");
        reveal_strlit("7");
        reveal_strlit("8");
        reveal_strlit("9");
    }
    match n {
        0 => "0",
        1 => "1",
        2 => "2",
        3 => "3",
        4 => "4",
        5 => "5",
        6 => "6",
        7 => "7",
        8 => "8",
        _ => "9",
    }
}

/// Writes a number in decimal digits.
pub fn decimal_text(n: u64) -> (text: String)
    ensures
        text@ == decimal(n),
    decreases n,
{
    if n < 10 {
        String::from(digit_text(n))
    } else {
        let mut text = decimal_text(n / 10);
        text.append(digit_text(n % 10));
        assert(text@ =~= decimal(n));
        text
    }
}

} // verus!
