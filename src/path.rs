//! Path conversion: a guest path of the form `scheme:rest` with a scheme that
//! the host has a device for becomes that device's path; any other path is
//! kept byte for byte. The result is NUL-terminated for the host.
use vstd::prelude::*;

verus! {

pub open spec fn null_prefix() -> Seq<u8> {
    seq![110u8, 117u8, 108u8, 108u8, 58u8]
}

pub open spec fn rand_prefix() -> Seq<u8> {
    seq![114u8, 97u8, 110u8, 100u8, 58u8]
}

pub open spec fn zero_prefix() -> Seq<u8> {
    seq![122u8, 101u8, 114u8, 111u8, 58u8]
}

/// `/dev/null`
pub open spec fn host_null_device() -> Seq<u8> {
    seq![47u8, 100u8, 101u8, 118u8, 47u8, 110u8, 117u8, 108u8, 108u8]
}

/// `/dev/urandom`
pub open spec fn host_random_device() -> Seq<u8> {
    seq![47u8, 100u8, 101u8, 118u8, 47u8, 117u8, 114u8, 97u8, 110u8, 100u8, 111u8, 109u8]
}

/// `/dev/zero`
pub open spec fn host_zero_device() -> Seq<u8> {
    seq![47u8, 100u8, 101u8, 118u8, 47u8, 122u8, 101u8, 114u8, 111u8]
}

pub open spec fn starts_with(s: Seq<u8>, p: Seq<u8>) -> bool {
    p.len() <= s.len() && s.subrange(0, p.len() as int) == p
}

/// Whether the path names a scheme, i.e. holds a `:`.
pub open spec fn has_scheme(s: Seq<u8>) -> bool {
    exists|i: int| 0 <= i < s.len() && s[i] == 58u8
}

/// Whether the path's scheme is one that the host has a device for.
pub open spec fn known_scheme(s: Seq<u8>) -> bool {
    starts_with(s, null_prefix()) || starts_with(s, rand_prefix()) || starts_with(s, zero_prefix())
}

/// The host path for a guest path, before its terminating NUL.
pub open spec fn host_path(s: Seq<u8>) -> Seq<u8> {
    if starts_with(s, null_prefix()) {
        host_null_device()
    } else if starts_with(s, rand_prefix()) {
        host_random_device()
    } else if starts_with(s, zero_prefix()) {
        host_zero_device()
    } else {
        s
    }
}

/// The NUL-terminated host path handed to the host's open.
pub open spec fn translate_path(s: Seq<u8>) -> Seq<u8> {
    host_path(s).push(0u8)
}

fn has_prefix(s: &[u8], p: &Vec<u8>) -> (r: bool)
    ensures
        r == starts_with(s@, p@),
{
    if p.len() > s.len() {
        return false;
    }
    let mut i: usize = 0;
    while i < p.len()
        invariant
            p@.len() <= s@.len(),
            i <= p@.len(),
            forall|j: int| 0 <= j < i ==> s@[j] == p@[j],
        decreases p@.len() - i,
    {
        if s[i] != p[i] {
            assert(s@.subrange(0, p@.len() as int)[i as int] != p@[i as int]);
            return false;
        }
        i = i + 1;
    }
    assert(s@.subrange(0, p@.len() as int) =~= p@);
    true
}

/// Whether the path names a scheme that the host has no device for; such a
/// path is passed on unchanged, and the caller reports it.
pub fn is_unknown_scheme(rpath: &[u8]) -> (r: bool)
    ensures
        r == (has_scheme(rpath@) && !known_scheme(rpath@)),
{
    let mut i: usize = 0;
    let mut found = false;
    while i < rpath.len()
        invariant
            i <= rpath@.len(),
            found == exists|j: int| 0 <= j < i && rpath@[j] == 58u8,
        decreases rpath@.len() - i,
    {
        if rpath[i] == 58u8 {
            found = true;
        }
        i = i + 1;
    }
    let known = has_prefix(rpath, &vec![110u8, 117u8, 108u8, 108u8, 58u8])
        || has_prefix(rpath, &vec![114u8, 97u8, 110u8, 100u8, 58u8])
        || has_prefix(rpath, &vec![122u8, 101u8, 114u8, 111u8, 58u8]);
    found && !known
}

/// Converts a guest path into the NUL-terminated host path.
pub fn convert_path(rpath: &[u8]) -> (r: Vec<u8>)
    ensures
        r@ == translate_path(rpath@),
{
    let mut lpath = if has_prefix(rpath, &vec![110u8, 117u8, 108u8, 108u8, 58u8]) {
        vec![47u8, 100u8, 101u8, 118u8, 47u8, 110u8, 117u8, 108u8, 108u8]
    } else if has_prefix(rpath, &vec![114u8, 97u8, 110u8, 100u8, 58u8]) {
        vec![47u8, 100u8, 101u8, 118u8, 47u8, 117u8, 114u8, 97u8, 110u8, 100u8, 111u8, 109u8]
    } else if has_prefix(rpath, &vec![122u8, 101u8, 114u8, 111u8, 58u8]) {
        vec![47u8, 100u8, 101u8, 118u8, 47u8, 122u8, 101u8, 114u8, 111u8]
    } else {
        crate::bytes::copy_bytes(rpath)
    };
    lpath.push(0u8);
    lpath
}

/// Resolution of a scheme depends on the scheme alone: `null:` followed by
/// anything becomes the host's null device.
pub proof fn lemma_null_scheme(rest: Seq<u8>)
    ensures
        translate_path(null_prefix() + rest) == host_null_device().push(0u8),
{
    assert((null_prefix() + rest).subrange(0, 5) =~= null_prefix());
}

/// A path whose scheme the host has no device for is passed on byte for byte,
/// NUL-terminated.
pub proof fn lemma_unknown_scheme_unchanged(path: Seq<u8>)
    requires
        !known_scheme(path),
    ensures
        translate_path(path) == path.push(0u8),
{
}

} // verus!
