//! Text on its way to and from the host
//!
//! The host takes and gives text as UTF-16, and reads a string up to its first nul.

use vstd::prelude::*;
use vstd::slice::slice_to_vec;

use widestring::U16CString;

verus! {

/// `widestring::U16CString`: an owned wide string that ends with a nul and holds no other.
/// Nothing is known of a value of it but what `wide_units` names.
#[verifier::external_type_specification]
#[verifier::external_body]
pub struct ExU16CString(widestring::U16CString);

/// The 16-bit units that a wide C string holds, without the nul that ends it.
pub uninterp spec fn wide_units(wide: widestring::U16CString) -> Seq<u16>;

/// The text that `widestring` decodes from UTF-16 units when invalid sequences are
/// replaced and not refused.
pub uninterp spec fn lossy_text(units: Seq<u16>) -> Seq<char>;

/// The UTF-16 units of one character: the character itself below U+10000, and a pair of
/// surrogates from there on.
pub open spec fn utf16_of_char(c: char) -> Seq<u16> {
    let code = c as int;
    if code < 0x1_0000 {
        seq![code as u16]
    } else {
        seq![
            (0xD800 + (code - 0x1_0000) / 0x400) as u16,
            (0xDC00 + (code - 0x1_0000) % 0x400) as u16,
        ]
    }
}

/// The UTF-16 units of a text: those of its characters, in order.
pub open spec fn utf16_of(text: Seq<char>) -> Seq<u16>
    decreases text.len(),
{
    if text.len() == 0 {
        Seq::empty()
    } else {
        utf16_of_char(text.first()) + utf16_of(text.drop_first())
    }
}

/// The units that come before the first nul; all of them where there is no nul.
pub open spec fn until_nul(units: Seq<u16>) -> Seq<u16>
    decreases units.len(),
{
    if units.len() == 0 || units.first() == 0 {
        Seq::empty()
    } else {
        seq![units.first()] + until_nul(units.drop_first())
    }
}

/// What is cut at the first nul is the longest beginning without a nul: it holds no nul,
/// and it ends where the units end or where a nul stands.
pub proof fn lemma_until_nul(units: Seq<u16>)
    ensures
        until_nul(units).len() <= units.len(),
        until_nul(units) =~= units.take(until_nul(units).len() as int),
        forall|i: int| 0 <= i < until_nul(units).len() ==> #[trigger] units[i] != 0,
        until_nul(units).len() < units.len() ==> units[until_nul(units).len() as int] == 0,
    decreases units.len(),
{
    if units.len() != 0 && units.first() != 0 {
        let rest = units.drop_first();
        lemma_until_nul(rest);
        let kept = until_nul(units);
        assert(kept.len() == until_nul(rest).len() + 1);
        assert forall|i: int| 0 <= i < kept.len() implies #[trigger] units[i] != 0 by {
            if i > 0 {
                assert(units[i] == rest[i - 1]);
            }
        }
        assert forall|i: int| 0 <= i < kept.len() implies kept[i] == units[i] by {
            if i > 0 {
                assert(kept[i] == until_nul(rest)[i - 1]);
                assert(until_nul(rest)[i - 1] == rest.take(until_nul(rest).len() as int)[i - 1]);
                assert(units[i] == rest[i - 1]);
            }
        }
        if kept.len() < units.len() {
            assert(units[kept.len() as int] == rest[until_nul(rest).len() as int]);
        }
    }
}

/// The characters that come before the first nul character; all of them where there is none.
pub open spec fn text_until_nul(text: Seq<char>) -> Seq<char>
    decreases text.len(),
{
    if text.len() == 0 || text.first() as int == 0 {
        Seq::empty()
    } else {
        seq![text.first()] + text_until_nul(text.drop_first())
    }
}

/// A character has one unit or two, and none of them is nul unless the character is.
pub proof fn lemma_units_of_char(c: char)
    ensures
        1 <= utf16_of_char(c).len() <= 2,
        c as int != 0 ==> forall|i: int|
            0 <= i < utf16_of_char(c).len() ==> #[trigger] utf16_of_char(c)[i] != 0,
        c as int == 0 ==> utf16_of_char(c) =~= seq![0u16],
{
}

/// Cutting the units of a text at the first nul keeps the units of the characters before
/// the first nul character, and nothing else: no character but nul has a nul among its
/// units.
pub proof fn lemma_units_are_cut_with_the_text(text: Seq<char>)
    ensures
        until_nul(utf16_of(text)) == utf16_of(text_until_nul(text)),
    decreases text.len(),
{
    if text.len() == 0 {
    } else if text.first() as int == 0 {
        assert(utf16_of(text).first() == 0);
    } else {
        let rest = text.drop_first();
        let kept = text_until_nul(rest);
        lemma_units_are_cut_with_the_text(rest);
        let head = utf16_of_char(text.first());
        let tail = utf16_of(rest);
        assert((seq![text.first()] + kept).drop_first() =~= kept);
        assert(utf16_of(text_until_nul(text)) == head + utf16_of(kept));
        lemma_units_of_char(text.first());
        assert((head + tail).first() == head[0]);
        if head.len() == 1 {
            assert((head + tail).drop_first() =~= tail);
            assert(until_nul(head + tail) =~= head + until_nul(tail));
        } else {
            let second = seq![head[1]];
            assert((second + tail).first() == head[1]);
            assert((head + tail).drop_first() =~= second + tail);
            assert((second + tail).drop_first() =~= tail);
            assert(until_nul(second + tail) =~= second + until_nul(tail));
            assert(until_nul(head + tail) =~= head + until_nul(tail));
        }
    }
}

/// Units that hold no nul are not cut.
pub proof fn lemma_until_nul_is_idempotent(units: Seq<u16>)
    ensures
        until_nul(until_nul(units)) == until_nul(units),
    decreases units.len(),
{
    if units.len() != 0 && units.first() != 0 {
        let rest = units.drop_first();
        lemma_until_nul_is_idempotent(rest);
        let head = seq![units.first()];
        assert((head + until_nul(rest)).drop_first() =~= until_nul(rest));
        assert(until_nul(head + until_nul(rest)) =~= head + until_nul(until_nul(rest)));
    }
}

/// `widestring::U16CString::from_str_truncate`: the string holds the UTF-16 units of the
/// text that come before the first nul.
#[verifier::external_body]
fn wide_from_str_truncate(text: &str) -> (wide: U16CString)
    ensures
        wide_units(wide) == until_nul(utf16_of(text@)),
{
    U16CString::from_str_truncate(text)
}

/// `widestring::U16CString::from_vec_truncate`: the string holds the units that come
/// before the first nul.
#[verifier::external_body]
fn wide_from_vec_truncate(units: Vec<u16>) -> (wide: U16CString)
    ensures
        wide_units(wide) == until_nul(units@),
{
    U16CString::from_vec_truncate(units)
}

/// `widestring::U16CStr::as_slice`: the units of the string, without the nul that ends it.
#[verifier::external_body]
fn wide_as_slice(wide: &U16CString) -> (units: &[u16])
    ensures
        units@ == wide_units(*wide),
{
    wide.as_slice()
}

/// `widestring::U16CStr::to_string_lossy`: the text decoded from the units of the string,
/// without the nul that ends it. Where the units are the UTF-16 units of a text, that
/// text is what they decode to.
#[verifier::external_body]
fn wide_to_string_lossy(wide: &U16CString) -> (text: String)
    ensures
        text@ == lossy_text(wide_units(*wide)),
        forall|valid: Seq<char>| #[trigger] utf16_of(valid) == wide_units(*wide) ==> text@ == valid,
{
    wide.to_string_lossy()
}

/// The units that are sent to the host for a text: its UTF-16 units up to the first nul.
/// None of them is nul, so the host reads all of them.
pub fn to_wide(text: &str) -> (units: Vec<u16>)
    ensures
        units@ == until_nul(utf16_of(text@)),
        forall|i: int| 0 <= i < units@.len() ==> #[trigger] units@[i] != 0,
{
    let wide = wide_from_str_truncate(text);
    let units = slice_to_vec(wide_as_slice(&wide));
    proof {
        let whole = utf16_of(text@);
        lemma_until_nul(whole);
        assert forall|i: int| 0 <= i < units@.len() implies #[trigger] units@[i] != 0 by {
            assert(units@[i] == whole.take(units@.len() as int)[i]);
            assert(whole[i] != 0);
        }
    }
    units
}

/// The text that the host means by the units it gave: what they decode to up to the
/// first nul, with a replacement character for every invalid sequence.
pub fn from_wide(units: Vec<u16>) -> (text: String)
    ensures
        text@ == lossy_text(until_nul(units@)),
        forall|valid: Seq<char>| #[trigger] utf16_of(valid) == until_nul(units@) ==> text@ == valid,
{
    let wide = wide_from_vec_truncate(units);
    wide_to_string_lossy(&wide)
}

/// What a text becomes on its way to the host and back: the text up to its first nul
/// character, and nothing else is lost or changed.
pub fn through_wide(text: &str) -> (kept: String)
    ensures
        kept@ == text_until_nul(text@),
{
    let units = to_wide(text);
    proof {
        lemma_units_are_cut_with_the_text(text@);
        lemma_until_nul_is_idempotent(utf16_of(text@));
    }
    from_wide(units)
}

} // verus!
