use vstd::prelude::*;
use rand::Rng;
use crate::port::all_digits;

verus! {

/// Relies on `rand::rng()` and `Rng::random_range(0..10)`: a value drawn from `0..10`.
#[verifier::external_body]
fn random_digit() -> (d: usize)
    ensures
        d < 10,
{
    rand::rng().random_range(0..10)
}

/// The character of the decimal digit `d`.
pub open spec fn digit_char(d: int) -> char {
    ('0' as int + d) as char
}

/// The one-character text of the decimal digit `d`.
fn digit_text(d: usize) -> (r: &'static str)
    requires
        d < 10,
    ensures
        r@ == seq![digit_char(d as int)],
{
    let digits = "0123456789";
    proof {
        reveal_strlit("0123456789");
    }
    let r = digits.substring_char(d, d + 1);
    assert(r@ =~= seq![digit_char(d as int)]);
    r
}

/// The text of the decimal digits `ds`, most significant first.
pub fn digits_text(ds: &Vec<usize>) -> (r: String)
    requires
        forall|i: int| 0 <= i < ds@.len() ==> ds@[i] < 10,
    ensures
        r@.len() == ds@.len(),
        forall|i: int| 0 <= i < r@.len() ==> #[trigger] r@[i] == digit_char(ds@[i] as int),
        all_digits(r@),
{
    let mut text = String::new();
    let mut i: usize = 0;
    while i < ds.len()
        invariant
            forall|j: int| 0 <= j < ds@.len() ==> ds@[j] < 10,
            i <= ds@.len(),
            text@.len() == i,
            forall|j: int| 0 <= j < i ==> #[trigger] text@[j] == digit_char(ds@[j] as int),
            all_digits(text@),
        decreases ds@.len() - i,
    {
        let d = digit_text(ds[i]);
        let ghost before = text@;
        text.append(d);
        assert(text@ =~= before.push(digit_char(ds@[i as int] as int)));
        assert(all_digits(text@)) by {
            assert forall|j: int| 0 <= j < text@.len() implies crate::port::is_digit(
                #[trigger] text@[j],
            ) by {
                if j < before.len() {
                    assert(text@[j] == before[j]);
                }
            }
        }
        i = i + 1;
    }
    text
}

/// A string of `length` decimal digits, each drawn independently at random.
pub fn random_number_string(length: usize) -> (r: String)
    ensures
        r@.len() == length,
        all_digits(r@),
{
    let mut draws: Vec<usize> = Vec::new();
    let mut i: usize = 0;
    while i < length
        invariant
            i <= length,
            draws@.len() == i,
            forall|j: int| 0 <= j < draws@.len() ==> draws@[j] < 10,
        decreases length - i,
    {
        draws.push(random_digit());
        i = i + 1;
    }
    digits_text(&draws)
}

} // verus!
