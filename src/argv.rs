//! The argument vector handed to exec: the command name, then its
//! arguments, each as a NUL-terminated byte string.
use vstd::prelude::*;

verus! {

/// `s` holds no NUL byte, so it can stand as one C string.
pub open spec fn nul_free(s: Seq<u8>) -> bool {
    forall|i: int| 0 <= i < s.len() ==> s[i] != 0
}

/// The command name and every argument can stand as C strings.
pub open spec fn representable(name: Seq<u8>, args: Seq<Vec<u8>>) -> bool {
    nul_free(name) && forall|i: int| 0 <= i < args.len() ==> nul_free(#[trigger] args[i]@)
}

pub fn is_nul_free(s: &Vec<u8>) -> (r: bool)
    ensures
        r == nul_free(s@),
{
    let mut i: usize = 0;
    while i < s.len()
        invariant
            0 <= i <= s.len(),
            nul_free(s@.subrange(0, i as int)),
        decreases s.len() - i,
    {
        if s[i] == 0 {
            return false;
        }
        assert(s@.subrange(0, i + 1) =~= s@.subrange(0, i as int).push(s@[i as int]));
        i += 1;
    }
    assert(s@.subrange(0, i as int) =~= s@);
    true
}

/// Whether `command_name` and `command_args` can be launched: none holds a
/// NUL byte.
pub fn argv_representable(command_name: &Vec<u8>, command_args: &Vec<Vec<u8>>) -> (r: bool)
    ensures
        r == representable(command_name@, command_args@),
{
    if !is_nul_free(command_name) {
        return false;
    }
    let mut i: usize = 0;
    while i < command_args.len()
        invariant
            0 <= i <= command_args.len(),
            nul_free(command_name@),
            forall|j: int| 0 <= j < i ==> nul_free(#[trigger] command_args@[j]@),
        decreases command_args.len() - i,
    {
        if !is_nul_free(&command_args[i]) {
            return false;
        }
        i += 1;
    }
    true
}

/// `s` with a NUL byte after it.
pub fn nul_terminated(s: &Vec<u8>) -> (r: Vec<u8>)
    ensures
        r@ == s@.push(0),
{
    let mut r: Vec<u8> = Vec::new();
    let mut i: usize = 0;
    while i < s.len()
        invariant
            0 <= i <= s.len(),
            r@ == s@.subrange(0, i as int),
        decreases s.len() - i,
    {
        r.push(s[i]);
        i += 1;
    }
    r.push(0);
    assert(s@.subrange(0, s.len() as int) =~= s@);
    r
}

/// The entries of the argument vector: the command name, then each argument
/// in order, each followed by a NUL byte.
pub fn build_argv(command_name: &Vec<u8>, command_args: &Vec<Vec<u8>>) -> (r: Vec<Vec<u8>>)
    requires
        representable(command_name@, command_args@),
    ensures
        r.len() == command_args.len() + 1,
        r@[0]@ == command_name@.push(0),
        forall|i: int| 0 <= i < command_args.len() ==> r@[i + 1]@ == (#[trigger] command_args@[i])@.push(0),
{
    let mut r: Vec<Vec<u8>> = Vec::new();
    r.push(nul_terminated(command_name));
    let mut i: usize = 0;
    while i < command_args.len()
        invariant
            0 <= i <= command_args.len(),
            r.len() == i + 1,
            r@[0]@ == command_name@.push(0),
            forall|j: int| 0 <= j < i ==> r@[j + 1]@ == (#[trigger] command_args@[j])@.push(0),
        decreases command_args.len() - i,
    {
        r.push(nul_terminated(&command_args[i]));
        i += 1;
    }
    r
}

} // verus!
