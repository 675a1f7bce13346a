//! Serialization of the flat detection list to JSON text. The wire format is
//! an array of 2-element arrays, `[[name, {"xmin":...,"ymin":...,"xmax":...,
//! "ymax":...,"confidence":...}], ...]`; an empty list serializes to `[]`.
//! Fixed-point scalars print as decimals with up to three fractional digits,
//! trailing zeros trimmed. Every emitting function returns exactly the
//! character sequence its spec-level counterpart describes.

use vstd::prelude::*;

use crate::bbox::Bbox;

verus! {

/// The character for the decimal digit `d`.
pub open spec fn digit_char(d: int) -> char {
    if d == 0 { '0' }
    else if d == 1 { '1' }
    else if d == 2 { '2' }
    else if d == 3 { '3' }
    else if d == 4 { '4' }
    else if d == 5 { '5' }
    else if d == 6 { '6' }
    else if d == 7 { '7' }
    else if d == 8 { '8' }
    else { '9' }
}

/// The decimal digit string of a non-negative integer, most significant
/// digit first, with no leading zeros (a lone `0` for zero).
pub open spec fn digits_of(n: int) -> Seq<char>
    recommends
        n >= 0,
    decreases n,
{
    if n < 10 { seq![digit_char(n)] } else { digits_of(n / 10).push(digit_char(n % 10)) }
}

/// The fractional digits for a thousandths remainder `f` in `1..=999`:
/// three digits with trailing zeros dropped.
pub open spec fn frac_digits(f: int) -> Seq<char> {
    let d1 = digit_char(f / 100);
    let d2 = digit_char((f / 10) % 10);
    let d3 = digit_char(f % 10);
    if f % 10 != 0 { seq![d1, d2, d3] }
    else if (f / 10) % 10 != 0 { seq![d1, d2] }
    else { seq![d1] }
}

/// A fixed-point value of `n` thousandths printed as a decimal: the whole
/// part, then a point and the trimmed fractional digits when these are not
/// all zero.
pub open spec fn dec3_of(n: int) -> Seq<char>
    recommends
        n >= 0,
{
    if n % 1000 == 0 { digits_of(n / 1000) } else {
        digits_of(n / 1000) + seq!['.'] + frac_digits(n % 1000)
    }
}

/// The JSON object for one bounding box.
pub open spec fn json_bbox(b: Bbox) -> Seq<char> {
    "{\"xmin\":"@ + dec3_of(b.xmin as int) + ",\"ymin\":"@ + dec3_of(b.ymin as int)
        + ",\"xmax\":"@ + dec3_of(b.xmax as int) + ",\"ymax\":"@ + dec3_of(b.ymax as int)
        + ",\"confidence\":"@ + dec3_of(b.confidence as int) + "}"@
}

/// The JSON 2-element array for one detection: its class name, then its box.
pub open spec fn json_entry(name: Seq<char>, b: Bbox) -> Seq<char> {
    "[\""@ + name + "\","@ + json_bbox(b) + "]"@
}

/// The comma-separated entry text of a detection list, without the brackets.
pub open spec fn json_items(entries: Seq<(Seq<char>, Bbox)>) -> Seq<char>
    decreases entries.len(),
{
    if entries.len() == 0 { Seq::empty() }
    else if entries.len() == 1 { json_entry(entries[0].0, entries[0].1) }
    else {
        json_items(entries.drop_last()) + ","@
            + json_entry(entries.last().0, entries.last().1)
    }
}

/// The full JSON array for a detection list.
pub open spec fn json_list(entries: Seq<(Seq<char>, Bbox)>) -> Seq<char> {
    "["@ + json_items(entries) + "]"@
}

/// A detection list of owned strings, seen as its mathematical entries.
pub open spec fn entries_view(entries: Seq<(String, Bbox)>) -> Seq<(Seq<char>, Bbox)> {
    entries.map_values(|p: (String, Bbox)| (p.0@, p.1))
}

/// The one-character string for the decimal digit `d`.
fn digit_str(d: u32) -> (r: &'static str)
    requires
        d < 10,
    ensures
        r@ == seq![digit_char(d as int)],
{
    if d == 0 { proof { reveal_strlit("0"); assert("0"@ =~= seq![digit_char(0int)]); } "0" }
    else if d == 1 { proof { reveal_strlit("1"); assert("1"@ =~= seq![digit_char(1int)]); } "1" }
    else if d == 2 { proof { reveal_strlit("2"); assert("2"@ =~= seq![digit_char(2int)]); } "2" }
    else if d == 3 { proof { reveal_strlit("3"); assert("3"@ =~= seq![digit_char(3int)]); } "3" }
    else if d == 4 { proof { reveal_strlit("4"); assert("4"@ =~= seq![digit_char(4int)]); } "4" }
    else if d == 5 { proof { reveal_strlit("5"); assert("5"@ =~= seq![digit_char(5int)]); } "5" }
    else if d == 6 { proof { reveal_strlit("6"); assert("6"@ =~= seq![digit_char(6int)]); } "6" }
    else if d == 7 { proof { reveal_strlit("7"); assert("7"@ =~= seq![digit_char(7int)]); } "7" }
    else if d == 8 { proof { reveal_strlit("8"); assert("8"@ =~= seq![digit_char(8int)]); } "8" }
    else { proof { reveal_strlit("9"); assert("9"@ =~= seq![digit_char(9int)]); } "9" }
}

/// Prints `n` in decimal.
pub fn format_u32(n: u32) -> (r: String)
    ensures
        r@ == digits_of(n as int),
    decreases n,
{
    if n < 10 {
        String::from_str(digit_str(n))
    } else {
        let mut s = format_u32(n / 10);
        s.append(digit_str(n % 10));
        proof {
            assert(s@ =~= digits_of(n as int));
        }
        s
    }
}

/// Prints a fixed-point value of `n` thousandths as a decimal.
pub fn format_milli(n: u32) -> (r: String)
    ensures
        r@ == dec3_of(n as int),
{
    let whole = n / 1000;
    let frac = n % 1000;
    let mut s = format_u32(whole);
    if frac != 0 {
        s.append(".");
        let d1 = frac / 100;
        let d2 = (frac / 10) % 10;
        let d3 = frac % 10;
        if d3 != 0 {
            s.append(digit_str(d1));
            s.append(digit_str(d2));
            s.append(digit_str(d3));
        } else if d2 != 0 {
            s.append(digit_str(d1));
            s.append(digit_str(d2));
        } else {
            s.append(digit_str(d1));
        }
        proof {
            reveal_strlit(".");
            assert(s@ =~= dec3_of(n as int));
        }
    }
    s
}

/// Serializes one bounding box as a JSON object.
pub fn json_bbox_string(b: &Bbox) -> (r: String)
    ensures
        r@ == json_bbox(*b),
{
    let mut s = String::from_str("{\"xmin\":");
    let xmin = format_milli(b.xmin);
    s.append(xmin.as_str());
    s.append(",\"ymin\":");
    let ymin = format_milli(b.ymin);
    s.append(ymin.as_str());
    s.append(",\"xmax\":");
    let xmax = format_milli(b.xmax);
    s.append(xmax.as_str());
    s.append(",\"ymax\":");
    let ymax = format_milli(b.ymax);
    s.append(ymax.as_str());
    s.append(",\"confidence\":");
    let confidence = format_milli(b.confidence);
    s.append(confidence.as_str());
    s.append("}");
    proof {
        assert(s@ =~= json_bbox(*b));
    }
    s
}

/// Serializes one detection as a JSON 2-element array of name and box.
pub fn json_entry_string(name: &str, b: &Bbox) -> (r: String)
    ensures
        r@ == json_entry(name@, *b),
{
    let mut s = String::from_str("[\"");
    s.append(name);
    s.append("\",");
    let obj = json_bbox_string(b);
    s.append(obj.as_str());
    s.append("]");
    proof {
        assert(s@ =~= json_entry(name@, *b));
    }
    s
}

/// Serializes a whole detection list as a JSON array.
pub fn json_of_detections(entries: &Vec<(String, Bbox)>) -> (r: String)
    ensures
        r@ == json_list(entries_view(entries@)),
{
    let ghost ev = entries_view(entries@);
    let mut s = String::from_str("[");
    proof {
        assert(ev.take(0) =~= Seq::<(Seq<char>, Bbox)>::empty());
        assert(s@ =~= "["@ + json_items(ev.take(0)));
    }
    let mut k: usize = 0;
    while k < entries.len()
        invariant
            k <= entries.len(),
            ev == entries_view(entries@),
            s@ == "["@ + json_items(ev.take(k as int)),
        decreases entries.len() - k,
    {
        if k > 0 {
            s.append(",");
        }
        let entry = json_entry_string(entries[k].0.as_str(), &entries[k].1);
        s.append(entry.as_str());
        proof {
            assert(ev.take(k as int + 1).drop_last() =~= ev.take(k as int));
            assert(ev.take(k as int + 1).last() == ev[k as int]);
            assert(ev[k as int] == (entries@[k as int].0@, entries@[k as int].1));
            assert(s@ =~= "["@ + json_items(ev.take(k as int + 1)));
        }
        k += 1;
    }
    s.append("]");
    proof {
        assert(ev.take(entries.len() as int) =~= ev);
        assert(s@ =~= json_list(ev));
    }
    s
}

} // verus!
