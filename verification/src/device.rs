//! Preparation of device names for the native open call.
//!
//! The native interface takes a NUL-terminated byte string naming the
//! device, with a fixed sentinel name selecting the implementation-defined
//! default device. A caller-supplied name must not contain an embedded NUL
//! byte: such a name is rejected here, with its own error, before any
//! native call could see it.

use vstd::prelude::*;

verus! {

/// Whether the byte sequence contains a NUL byte.
pub open spec fn has_nul(s: Seq<u8>) -> bool {
    exists|i: int| 0 <= i < s.len() && s[i] == 0
}

/// The bytes of the sentinel device name, `"default"`, with its
/// terminating NUL: the name that selects the default device.
pub open spec fn devany_bytes() -> Seq<u8> {
    seq![100u8, 101u8, 102u8, 97u8, 117u8, 108u8, 116u8, 0u8]
}

/// Why a requested device name cannot be handed to the native open call.
#[derive(Clone, Copy, Debug, PartialEq, Eq, Structural)]
pub enum NameError {
    /// The name contains an embedded NUL byte.
    EmbeddedNul,
}

/// The sentinel name for the default device, NUL-terminated.
pub fn default_device_name() -> (v: Vec<u8>)
    ensures
        v@ == devany_bytes(),
{
    let v: Vec<u8> = vec![100u8, 101u8, 102u8, 97u8, 117u8, 108u8, 116u8, 0u8];
    proof {
        assert(v@ =~= devany_bytes());
    }
    v
}

/// Turns a requested device name into the NUL-terminated byte string the
/// native open call takes. No name selects the default device; a name with
/// an embedded NUL byte is rejected, so the native layer is never handed
/// one, and a clean name is passed through unchanged, terminated.
pub fn resolve_device_name(dev: Option<&Vec<u8>>) -> (r: Result<Vec<u8>, NameError>)
    ensures
        match dev {
            None => r is Ok && r->Ok_0@ == devany_bytes(),
            Some(d) => {
                if has_nul(d@) {
                    r == Result::<Vec<u8>, NameError>::Err(NameError::EmbeddedNul)
                } else {
                    r is Ok && r->Ok_0@ == d@.push(0u8)
                }
            },
        },
{
    match dev {
        None => Ok(default_device_name()),
        Some(d) => {
            let mut out: Vec<u8> = Vec::new();
            let mut i: usize = 0;
            while i < d.len()
                invariant
                    dev == Some(d),
                    i <= d@.len(),
                    out@ == d@.subrange(0, i as int),
                    forall|j: int| 0 <= j < i ==> d@[j] != 0,
                decreases d@.len() - i,
            {
                let b = d[i];
                if b == 0 {
                    proof {
                        assert(0 <= i < d@.len() && d@[i as int] == 0);
                        assert(has_nul(d@));
                    }
                    return Err(NameError::EmbeddedNul);
                }
                out.push(b);
                proof {
                    assert(out@ =~= d@.subrange(0, i + 1 as int));
                }
                i = i + 1;
            }
            proof {
                assert(out@ =~= d@);
            }
            out.push(0);
            Ok(out)
        },
    }
}

} // verus!
