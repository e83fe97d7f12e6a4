//! Deriving output locations: every result is written under a `resized`
//! subdirectory of the input directory, keeping the input's filename.

use vstd::prelude::*;

verus! {

/// The `/` byte.
pub const SLASH: u8 = 47;

/// The byte string `resized`, the name of the output subdirectory.
pub open spec fn resized_name() -> Seq<u8> {
    seq![114u8, 101u8, 115u8, 105u8, 122u8, 101u8, 100u8]
}

/// The output directory for a given input directory: `<dir>/resized`.
pub open spec fn resized_dir_spec(dir: Seq<u8>) -> Seq<u8> {
    dir + seq![SLASH] + resized_name()
}

/// The output path for a given input directory and filename:
/// `<dir>/resized/<name>`.
pub open spec fn output_path_spec(dir: Seq<u8>, name: Seq<u8>) -> Seq<u8> {
    resized_dir_spec(dir) + seq![SLASH] + name
}

/// Build `<dir>/resized`.
pub fn resized_dir(dir: &Vec<u8>) -> (r: Vec<u8>)
    ensures
        r@ == resized_dir_spec(dir@),
{
    let mut r: Vec<u8> = Vec::new();
    let mut i: usize = 0;
    while i < dir.len()
        invariant
            i <= dir.len(),
            r@ == dir@.subrange(0, i as int),
        decreases dir.len() - i,
    {
        r.push(dir[i]);
        proof {
            assert(r@ =~= dir@.subrange(0, i + 1));
        }
        i = i + 1;
    }
    proof {
        assert(r@ =~= dir@);
    }
    r.push(SLASH);
    r.push(114);  // r
    r.push(101);  // e
    r.push(115);  // s
    r.push(105);  // i
    r.push(122);  // z
    r.push(101);  // e
    r.push(100);  // d
    proof {
        assert(r@ =~= resized_dir_spec(dir@));
    }
    r
}

/// Build `<dir>/resized/<name>`.
pub fn output_path(dir: &Vec<u8>, name: &Vec<u8>) -> (r: Vec<u8>)
    ensures
        r@ == output_path_spec(dir@, name@),
{
    let mut r = resized_dir(dir);
    let ghost base = r@;
    r.push(SLASH);
    let mut i: usize = 0;
    while i < name.len()
        invariant
            i <= name.len(),
            r@ == base + seq![SLASH] + name@.subrange(0, i as int),
        decreases name.len() - i,
    {
        r.push(name[i]);
        proof {
            assert(r@ =~= base + seq![SLASH] + name@.subrange(0, i + 1));
        }
        i = i + 1;
    }
    proof {
        assert(name@.subrange(0, name.len() as int) =~= name@);
        assert(r@ =~= output_path_spec(dir@, name@));
    }
    r
}

/// The output filename equals the input filename: two distinct inputs of one
/// batch (same directory, different names) can never collide, and the same
/// input maps to the same output on every run.
pub proof fn lemma_output_paths_distinct(dir: Seq<u8>, a: Seq<u8>, b: Seq<u8>)
    ensures
        output_path_spec(dir, a) == output_path_spec(dir, b) <==> a == b,
{
    if output_path_spec(dir, a) == output_path_spec(dir, b) {
        let pre = resized_dir_spec(dir) + seq![SLASH];
        assert(a =~= output_path_spec(dir, a).skip(pre.len() as int));
        assert(b =~= output_path_spec(dir, b).skip(pre.len() as int));
    }
}

} // verus!
