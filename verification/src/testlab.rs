//! Small sample types whose methods exercise the binding generator's
//! supported signatures.

use vstd::prelude::*;

verus! {

/// A sample bound type with primitive-typed methods.
#[derive(Debug)]
pub struct Primitive {}

impl Primitive {
    pub fn add_int(a: i32, b: i32) -> (r: i32)
        requires
            i32::MIN <= a + b <= i32::MAX,
        ensures
            r == a + b,
    {
        a + b
    }

    pub fn compare_bool(a: bool, b: bool) -> (r: bool)
        ensures
            r == (a == b),
    {
        a == b
    }
}

/// A sample bound type with text-typed methods.
#[derive(Debug)]
pub struct Strings {}

impl Strings {
    pub fn hello_world() -> (r: String)
        ensures
            r@ == "Hello, World!"@,
    {
        String::from_str("Hello, World!")
    }

    pub fn reverse(input: String) -> (r: String)
        ensures
            r@ == input@.reverse(),
    {
        let len = input.as_str().unicode_len();
        let mut res = String::new();
        let mut i: usize = 0;
        while i < len
            invariant
                len == input@.len(),
                i <= len,
                res@.len() == i,
                forall|j: int| 0 <= j < i ==> res@[j] == input@[len - 1 - j],
            decreases len - i,
        {
            let piece = input.as_str().substring_char(len - 1 - i, len - i);
            proof {
                assert(piece@ =~= seq![input@[len - 1 - i as int]]);
            }
            res.append(piece);
            i = i + 1;
        }
        proof {
            assert(res@ =~= input@.reverse());
        }
        res
    }

    pub fn count_chars(chars_to_count: String) -> (r: i32)
        requires
            chars_to_count@.len() <= i32::MAX,
        ensures
            r == chars_to_count@.len(),
    {
        let len = chars_to_count.as_str().unicode_len();
        len as i32
    }
}

} // verus!
