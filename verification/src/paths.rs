use vstd::prelude::*;

verus! {

/// The path separator byte, `/`.
pub const SEPARATOR: u8 = 47;

/// The bytes of `base` extended with sub-path `sub`: an absolute `sub`
/// replaces `base`; otherwise the two are joined with exactly one
/// separator between them.
pub open spec fn joined_path(base: Seq<u8>, sub: Seq<u8>) -> Seq<u8> {
    if sub.len() > 0 && sub[0] == SEPARATOR {
        sub
    } else if base.len() > 0 && base[base.len() - 1] == SEPARATOR {
        base + sub
    } else {
        base + seq![SEPARATOR] + sub
    }
}

/// Joins a base path and a sub-path, byte for byte.
pub fn get_path(base: &Vec<u8>, sub_path: &Vec<u8>) -> (r: Vec<u8>)
    ensures
        r@ == joined_path(base@, sub_path@),
{
    let mut r: Vec<u8> = Vec::new();
    if sub_path.len() > 0 && sub_path[0] == SEPARATOR {
        append_bytes(&mut r, sub_path);
        proof {
            assert(r@ =~= joined_path(base@, sub_path@));
        }
        return r;
    }
    append_bytes(&mut r, base);
    if !(base.len() > 0 && base[base.len() - 1] == SEPARATOR) {
        r.push(SEPARATOR);
        proof {
            assert(r@ =~= base@ + seq![SEPARATOR]);
        }
    }
    append_bytes(&mut r, sub_path);
    proof {
        assert(r@ =~= joined_path(base@, sub_path@));
    }
    r
}

/// Appends every byte of `src` to `dst`, in order.
fn append_bytes(dst: &mut Vec<u8>, src: &Vec<u8>)
    ensures
        final(dst)@ == old(dst)@ + src@,
{
    let mut i: usize = 0;
    while i < src.len()
        invariant
            i <= src@.len(),
            dst@ == old(dst)@ + src@.subrange(0, i as int),
        decreases src@.len() - i,
    {
        dst.push(src[i]);
        proof {
            assert(dst@ =~= old(dst)@ + src@.subrange(0, i + 1));
        }
        i = i + 1;
    }
    proof {
        assert(dst@ =~= old(dst)@ + src@);
    }
}

} // verus!
