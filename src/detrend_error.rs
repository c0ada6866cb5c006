use vstd::prelude::*;

verus! {

/// Errors that can occur while detrending.
#[derive(Debug, Clone, Copy, PartialEq, Eq, Structural)]
pub enum DetrendError {
    /// The result buffer could not be allocated; holds the requested length.
    Allocation(usize),
}

/// The character of the decimal digit `d` (below ten).
pub open spec fn digit_char(d: nat) -> char {
    if d == 0 {
        '0'
    } else if d == 1 {
        '1'
    } else if d == 2 {
        '2'
    } else if d == 3 {
        '3'
    } else if d == 4 {
        '4'
    } else if d == 5 {
        '5'
    } else if d == 6 {
        '6'
    } else if d == 7 {
        '7'
    } else if d == 8 {
        '8'
    } else {
        '9'
    }
}

/// The decimal notation of `n`, without leading zeros.
pub open spec fn decimal(n: nat) -> Seq<char>
    decreases n,
{
    if n < 10 {
        seq![digit_char(n)]
    } else {
        decimal(n / 10) + seq![digit_char(n % 10)]
    }
}

/// The text that describes an error.
pub open spec fn error_text(e: DetrendError) -> Seq<char> {
    match e {
        DetrendError::Allocation(size) => "Failed to allocate buffer with size "@ + decimal(
            size as nat,
        ),
    }
}

fn digit_str(d: usize) -> (r: &'static str)
    requires
        d < 10,
    ensures
        r@ == seq![digit_char(d as nat)],
{
    proof {
        reveal_strlit("0");
        reveal_strlit("1");
        reveal_strlit("2");
        reveal_strlit("3");
        reveal_strlit("4");
        reveal_strlit("5");
        reveal_strlit("6");
        reveal_strlit("7");
        reveal_strlit("8");
        reveal_strlit("9");
    }
    if d == 0 {
        "0"
    } else if d == 1 {
        "1"
    } else if d == 2 {
        "2"
    } else if d == 3 {
        "3"
    } else if d == 4 {
        "4"
    } else if d == 5 {
        "5"
    } else if d == 6 {
        "6"
    } else if d == 7 {
        "7"
    } else if d == 8 {
        "8"
    } else {
        "9"
    }
}

fn append_decimal(s: &mut String, n: usize)
    ensures
        final(s)@ == old(s)@ + decimal(n as nat),
    decreases n,
{
    if n >= 10 {
        append_decimal(s, n / 10);
    }
    s.append(digit_str(n % 10));
}

impl DetrendError {
    /// Describes the error in words, with the requested size in decimal.
    pub fn message(&self) -> (r: String)
        ensures
            r@ == error_text(*self),
    {
        match self {
            DetrendError::Allocation(size) => {
                let mut text = String::from_str("Failed to allocate buffer with size ");
                proof {
                    reveal_strlit("Failed to allocate buffer with size ");
                }
                append_decimal(&mut text, *size);
                text
            },
        }
    }
}

/// An empty vector with room for `n` elements, or `Allocation(n)` where that
/// memory cannot be had.
pub(crate) fn reserve_buffer<T>(n: usize) -> (r: Result<Vec<T>, DetrendError>)
    ensures
        r is Ok ==> r->Ok_0@.len() == 0,
        r is Err ==> r->Err_0 == DetrendError::Allocation(n),
{
    let mut v: Vec<T> = Vec::new();
    match v.try_reserve(n) {
        Ok(()) => Ok(v),
        Err(_) => Err(DetrendError::Allocation(n)),
    }
}

} // verus!
