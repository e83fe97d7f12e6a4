//! Classifying directory entries by filename: a file takes part in the batch
//! exactly when its extension, case-folded, is `jpg` or `jpeg`.
//!
//! Names are handled as byte strings. The extension is the part after the
//! last dot, provided that dot is not the name's first byte (a leading dot
//! marks a hidden file, not an extension).

use vstd::prelude::*;

verus! {

/// The `.` byte.
pub const DOT: u8 = 46;

/// ASCII case folding of one byte; bytes outside `A`..=`Z` are unchanged.
pub open spec fn lower_byte(b: u8) -> u8 {
    if 65 <= b <= 90 {
        (b + 32) as u8
    } else {
        b
    }
}

/// The extension of a filename: the bytes after the last dot, where that dot
/// stands strictly after the first byte; `None` when there is no such dot.
pub open spec fn extension_of(name: Seq<u8>) -> Option<Seq<u8>>
    decreases name.len(),
{
    if name.len() < 2 {
        None
    } else if name[name.len() - 1] == DOT {
        Some(Seq::empty())
    } else {
        match extension_of(name.drop_last()) {
            Some(e) => Some(e.push(name.last())),
            None => None,
        }
    }
}

/// The byte string `jpg`.
pub open spec fn jpg_ext() -> Seq<u8> {
    seq![106u8, 112u8, 103u8]
}

/// The byte string `jpeg`.
pub open spec fn jpeg_ext() -> Seq<u8> {
    seq![106u8, 112u8, 101u8, 103u8]
}

/// Whether a filename names a JPEG: it has an extension and that extension,
/// case-folded, is `jpg` or `jpeg`.
pub open spec fn is_jpeg_name_spec(name: Seq<u8>) -> bool {
    match extension_of(name) {
        Some(e) => {
            let folded = e.map_values(|b: u8| lower_byte(b));
            folded == jpg_ext() || folded == jpeg_ext()
        },
        None => false,
    }
}

/// If a dot stands at index `d >= 1` and no dot follows it, the extension is
/// exactly the bytes after `d`.
proof fn lemma_extension_at(name: Seq<u8>, d: int)
    requires
        1 <= d < name.len(),
        name[d] == DOT,
        forall|j: int| d < j < name.len() ==> name[j] != DOT,
    ensures
        extension_of(name) == Some(name.subrange(d + 1, name.len() as int)),
    decreases name.len(),
{
    if d == name.len() - 1 {
        assert(name.subrange(d + 1, name.len() as int) =~= Seq::<u8>::empty());
    } else {
        lemma_extension_at(name.drop_last(), d);
        assert(name.subrange(d + 1, name.len() as int) =~= name.drop_last().subrange(
            d + 1,
            name.len() - 1,
        ).push(name.last()));
    }
}

/// A name with no dot after its first byte has no extension.
proof fn lemma_extension_none(name: Seq<u8>)
    requires
        forall|j: int| 1 <= j < name.len() ==> name[j] != DOT,
    ensures
        extension_of(name) is None,
    decreases name.len(),
{
    if name.len() >= 2 {
        lemma_extension_none(name.drop_last());
    }
}

/// ASCII case folding of one byte, executable form.
pub fn lower_byte_exec(b: u8) -> (r: u8)
    ensures
        r == lower_byte(b),
{
    if 65 <= b && b <= 90 {
        b + 32
    } else {
        b
    }
}

/// Decides whether a filename names a JPEG, per `is_jpeg_name_spec`.
pub fn is_jpeg_name(name: &Vec<u8>) -> (r: bool)
    ensures
        r == is_jpeg_name_spec(name@),
{
    let n = name.len();
    // Find the last dot at an index >= 1, if any.
    let mut i: usize = n;
    while i > 1 && name[i - 1] != DOT
        invariant
            i <= n,
            n == name@.len(),
            forall|j: int| i <= j < n ==> name@[j] != DOT,
        decreases i,
    {
        i = i - 1;
    }
    if i <= 1 {
        proof {
            lemma_extension_none(name@);
        }
        return false;
    }
    let d = i - 1;
    proof {
        lemma_extension_at(name@, d as int);
    }
    let ext_len = n - d - 1;
    let ghost ext = name@.subrange(d + 1, n as int);
    let ghost folded = ext.map_values(|b: u8| lower_byte(b));
    if ext_len == 3 {
        let r = lower_byte_exec(name[d + 1]) == 106 && lower_byte_exec(name[d + 2]) == 112
            && lower_byte_exec(name[d + 3]) == 103;
        proof {
            if r {
                assert(folded =~= jpg_ext());
            }
            if folded == jpg_ext() {
                assert(folded[0] == 106u8 && folded[1] == 112u8 && folded[2] == 103u8);
            }
            assert(folded != jpeg_ext());
        }
        r
    } else if ext_len == 4 {
        let r = lower_byte_exec(name[d + 1]) == 106 && lower_byte_exec(name[d + 2]) == 112
            && lower_byte_exec(name[d + 3]) == 101 && lower_byte_exec(name[d + 4]) == 103;
        proof {
            if r {
                assert(folded =~= jpeg_ext());
            }
            if folded == jpeg_ext() {
                assert(folded[0] == 106u8 && folded[1] == 112u8 && folded[2] == 101u8 && folded[3]
                    == 103u8);
            }
            assert(folded != jpg_ext());
        }
        r
    } else {
        proof {
            assert(folded.len() == ext_len);
            assert(folded != jpg_ext() && folded != jpeg_ext());
        }
        false
    }
}

/// Keep exactly the JPEG names, in the order they were given.
pub fn filter_jpeg_names(names: Vec<Vec<u8>>) -> (r: Vec<Vec<u8>>)
    ensures
        r.deep_view() == names.deep_view().filter(|s: Seq<u8>| is_jpeg_name_spec(s)),
{
    let mut r: Vec<Vec<u8>> = Vec::new();
    let mut i: usize = 0;
    proof {
        assert(names.deep_view().subrange(0, 0) =~= Seq::<Seq<u8>>::empty());
        reveal(Seq::filter);
    }
    while i < names.len()
        invariant
            i <= names.len(),
            names.deep_view().len() == names.len(),
            forall|k: int| 0 <= k < names.len() ==> names.deep_view()[k] == names@[k]@,
            r.deep_view() == names.deep_view().subrange(0, i as int).filter(
                |s: Seq<u8>| is_jpeg_name_spec(s),
            ),
        decreases names.len() - i,
    {
        let ghost prefix = names.deep_view().subrange(0, i as int);
        let ghost prefix1 = names.deep_view().subrange(0, i + 1);
        let keep = is_jpeg_name(&names[i]);
        if keep {
            r.push(names[i].clone());
        }
        proof {
            reveal(Seq::filter);
            assert(prefix1.drop_last() =~= prefix);
            assert(prefix1.last() == names.deep_view()[i as int]);
            if keep {
                assert(r.deep_view() =~= prefix.filter(|s: Seq<u8>| is_jpeg_name_spec(s)).push(
                    names.deep_view()[i as int],
                ));
            }
        }
        i = i + 1;
    }
    proof {
        assert(names.deep_view().subrange(0, names.len() as int) =~= names.deep_view());
    }
    r
}

/// A batch with no JPEG names selects nothing: filtering a sequence none of
/// whose elements is a JPEG name yields the empty sequence.
pub proof fn lemma_scan_of_non_jpegs_is_empty(names: Seq<Seq<u8>>)
    requires
        forall|k: int| 0 <= k < names.len() ==> !is_jpeg_name_spec(#[trigger] names[k]),
    ensures
        names.filter(|s: Seq<u8>| is_jpeg_name_spec(s)) == Seq::<Seq<u8>>::empty(),
    decreases names.len(),
{
    reveal(Seq::filter);
    if names.len() > 0 {
        lemma_scan_of_non_jpegs_is_empty(names.drop_last());
    }
}

} // verus!
