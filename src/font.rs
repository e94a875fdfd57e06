//! Font identity: ids within a renderer and the details of a canvas font.
use vstd::prelude::*;
use vstd::string::StringExecFns;

verus! {

/// The character of the decimal digit `d`.
pub open spec fn digit_char(d: nat) -> char {
    seq!['0', '1', '2', '3', '4', '5', '6', '7', '8', '9'][d as int]
}

/// The decimal digits of `n`, most significant first, without leading zeros.
pub open spec fn decimal(n: nat) -> Seq<char>
    decreases n,
{
    if n < 10 {
        seq![digit_char(n)]
    } else {
        decimal(n / 10).push(digit_char(n % 10))
    }
}

/// The canvas font string of `details` at `font_size` pixels:
/// `"{before} {size}px {after}"`.
pub open spec fn spec_font_string(details: FontDetails, font_size: nat) -> Seq<char> {
    details.spec_before_size() + seq![' '] + decimal(font_size) + seq!['p', 'x', ' ']
        + details.spec_after_size()
}

fn digit_str(d: u32) -> (r: &'static str)
    requires
        d < 10,
    ensures
        r@ == seq![digit_char(d as nat)],
{
    proof {
        reveal_strlit("0");
        reveal_strlit("1");
        reveal_strlit("2");
        reveal_strlit("3");
        reveal_strlit("4");
        reveal_strlit("5");
        reveal_strlit("6");
        reveal_strlit("7");
        reveal_strlit("8");
        reveal_strlit("9");
    }
    let r = match d {
        0 => "0",
        1 => "1",
        2 => "2",
        3 => "3",
        4 => "4",
        5 => "5",
        6 => "6",
        7 => "7",
        8 => "8",
        _ => "9",
    };
    assert(r@ =~= seq![digit_char(d as nat)]);
    r
}

fn append_decimal(s: &mut String, n: u32)
    ensures
        final(s)@ == old(s)@ + decimal(n as nat),
    decreases n,
{
    if n >= 10 {
        append_decimal(s, n / 10);
    }
    s.append(digit_str(n % 10));
    assert(s@ =~= old(s)@ + decimal(n as nat));
}

/// Identifies one font among the fonts of a renderer.
#[derive(Clone, Copy, Debug, PartialEq, Eq, Structural)]
pub struct FontID {
    pub value: usize,
}

impl FontID {
    pub fn new(value: usize) -> (r: FontID)
        ensures
            r.value == value,
    {
        FontID { value }
    }
}

/// The properties of a canvas font apart from its size: the part of the font
/// string written before the size (such as "bold") and the part written after
/// it (such as "Arial").
#[derive(Clone, Debug)]
pub struct FontDetails {
    before_size: String,
    after_size: String,
}

impl FontDetails {
    pub closed spec fn spec_before_size(&self) -> Seq<char> {
        self.before_size@
    }

    pub closed spec fn spec_after_size(&self) -> Seq<char> {
        self.after_size@
    }

    pub fn from_string(before_size: String, after_size: String) -> (r: FontDetails)
        ensures
            r.spec_before_size() == before_size@,
            r.spec_after_size() == after_size@,
    {
        FontDetails { before_size, after_size }
    }

    pub fn from_str(before_size: &str, after_size: &str) -> (r: FontDetails)
        ensures
            r.spec_before_size() == before_size@,
            r.spec_after_size() == after_size@,
    {
        FontDetails { before_size: before_size.to_owned(), after_size: after_size.to_owned() }
    }

    /// The part of the font string placed before the size.
    pub fn get_before_size(&self) -> (r: &str)
        ensures
            r@ == self.spec_before_size(),
    {
        self.before_size.as_str()
    }

    /// The part of the font string placed after the size.
    pub fn get_after_size(&self) -> (r: &str)
        ensures
            r@ == self.spec_after_size(),
    {
        self.after_size.as_str()
    }

    /// The canvas font string of these details at `font_size` pixels, such as
    /// "bold 40px Arial".
    pub fn font_string(&self, font_size: u32) -> (r: String)
        ensures
            r@ == spec_font_string(*self, font_size as nat),
    {
        let mut s = String::new();
        s.append(self.before_size.as_str());
        s.append(" ");
        append_decimal(&mut s, font_size);
        s.append("px ");
        s.append(self.after_size.as_str());
        proof {
            reveal_strlit(" ");
            reveal_strlit("px ");
        }
        assert(s@ =~= spec_font_string(*self, font_size as nat));
        s
    }

    /// Two details are the same when both of their parts are equal.
    pub open spec fn same_as(&self, other: &FontDetails) -> bool {
        self.spec_before_size() == other.spec_before_size()
            && self.spec_after_size() == other.spec_after_size()
    }
}

impl PartialEq for FontDetails {
    fn eq(&self, other: &FontDetails) -> (r: bool)
        ensures
            r == self.same_as(other),
    {
        self.before_size == other.before_size && self.after_size == other.after_size
    }
}

impl vstd::std_specs::cmp::PartialEqSpecImpl for FontDetails {
    open spec fn obeys_eq_spec() -> bool {
        true
    }

    open spec fn eq_spec(&self, other: &FontDetails) -> bool {
        self.same_as(other)
    }
}

impl Eq for FontDetails {

}

/// The index of the first details in `list` that are the same as `wanted`.
pub fn find_details(list: &Vec<FontDetails>, wanted: &FontDetails) -> (r: Option<usize>)
    ensures
        match r {
            Some(i) => i < list@.len() && list@[i as int].same_as(wanted) && forall|j: int|
                0 <= j < i ==> !(#[trigger] list@[j]).same_as(wanted),
            None => forall|j: int| 0 <= j < list@.len() ==> !(#[trigger] list@[j]).same_as(wanted),
        },
{
    let mut i: usize = 0;
    while i < list.len()
        invariant
            i <= list@.len(),
            forall|j: int| 0 <= j < i ==> !(#[trigger] list@[j]).same_as(wanted),
        decreases list@.len() - i,
    {
        if list[i].eq(wanted) {
            return Some(i);
        }
        i = i + 1;
    }
    None
}

} // verus!
