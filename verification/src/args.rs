//! The circuit size that the key tool is asked for on its command line.

use crate::decimal::{parse_u32, parse_u32_spec};
use vstd::prelude::*;
use vstd::slice::slice_subrange;
use vstd::string::*;
use vstd::utf8::{encode_utf8, encode_utf8_valid_utf8, is_char_boundary};

verus! {

/// The circuit size that is taken where none is given.
pub const DEFAULT_K: u32 = 23;

/// The number of bytes of the option name, `--k=`, before the number.
pub const K_OPTION_BYTES: usize = 4;

/// Whether an argument can be cut behind the option name.
pub open spec fn has_option_name(argument: Seq<char>) -> bool {
    is_char_boundary(encode_utf8(argument), K_OPTION_BYTES as int)
}

/// The circuit size that one argument asks for: the number behind its first
/// four bytes, or the default where no number stands there.
pub open spec fn k_from_argument(argument: Seq<u8>) -> u32 {
    match parse_u32_spec(argument.skip(K_OPTION_BYTES as int)) {
        Some(k) => k,
        None => DEFAULT_K,
    }
}

/// The circuit size that the arguments ask for: that of the first argument
/// behind the program's name, or the default where there is none.
pub open spec fn k_from_args(args: Seq<String>) -> u32 {
    if args.len() < 2 {
        DEFAULT_K
    } else {
        k_from_argument(encode_utf8(args[1]@))
    }
}

/// Reads the circuit size from the command line.
pub fn get_k_from_args(args: Vec<String>) -> (k: u32)
    requires
        args@.len() >= 2 ==> has_option_name(args@[1]@),
    ensures
        k == k_from_args(args@),
{
    if args.len() < 2 {
        return DEFAULT_K;
    }
    let argument = args[1].as_str().as_bytes();
    proof {
        encode_utf8_valid_utf8(args@[1]@);
    }
    let number = slice_subrange(argument, K_OPTION_BYTES, argument.len());
    match parse_u32(number) {
        Some(k) => k,
        None => DEFAULT_K,
    }
}

} // verus!
