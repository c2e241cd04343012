//! The content extractor: decompress the payload, walk the container entries
//! in order, and keep exactly the top-level entries with the target
//! extension. An archive that decodes but yields nothing is a reportable
//! failure, never a silent success.
use vstd::prelude::*;

use crate::codec::{gunzip, gunzip_of, tar_entries_of, untar, TarEntry};
use crate::errors::UnitError;
use crate::paper::{name_qualifies, tex_name, TexFile};

verus! {

/// An entry qualifies when its name decoded as text and is a qualifying name.
pub open spec fn entry_qualifies(e: (Option<Seq<char>>, Seq<u8>)) -> bool {
    e.0 matches Some(n) && tex_name(n)
}

/// The qualifying entries of a container, in encounter order, reduced to
/// (name, content).
pub open spec fn tex_files_of(entries: Seq<(Option<Seq<char>>, Seq<u8>)>) -> Seq<
    (Seq<char>, Seq<u8>),
>
    decreases entries.len(),
{
    if entries.len() == 0 {
        Seq::empty()
    } else {
        let head = tex_files_of(entries.drop_last());
        if entry_qualifies(entries.last()) {
            head.push((entries.last().0.unwrap(), entries.last().1))
        } else {
            head
        }
    }
}

/// Every file the filter keeps carries a qualifying name, and the filter
/// never yields more files than the container had entries.
pub proof fn lemma_tex_files_qualify(entries: Seq<(Option<Seq<char>>, Seq<u8>)>)
    ensures
        forall|i: int|
            0 <= i < tex_files_of(entries).len() ==> tex_name(#[trigger] tex_files_of(entries)[i].0),
        tex_files_of(entries).len() <= entries.len(),
    decreases entries.len(),
{
    if entries.len() > 0 {
        lemma_tex_files_qualify(entries.drop_last());
    }
}

/// A successful extraction yields at least one file, every one with a
/// qualifying name.
pub proof fn lemma_extract_files_qualify(raw: Seq<u8>)
    ensures
        spec_extract(raw) matches Ok(files) ==> files.len() > 0 && forall|i: int|
            0 <= i < files.len() ==> tex_name(#[trigger] files[i].0),
{
    if spec_extract(raw) is Ok {
        let entries = tar_entries_of(gunzip_of(raw).unwrap()).unwrap();
        lemma_tex_files_qualify(entries);
    }
}

/// What extraction yields on given raw bytes: the qualifying (name, content)
/// pairs in container order, or the error that run earned. Decompression and
/// container faults are structural corruption; a clean decode with no
/// qualifying entry is the empty-extraction failure.
pub open spec fn spec_extract(raw: Seq<u8>) -> Result<Seq<(Seq<char>, Seq<u8>)>, UnitError> {
    match gunzip_of(raw) {
        Option::None => Err(UnitError::ExtractionCorrupt),
        Option::Some(plain) => match tar_entries_of(plain) {
            Option::None => Err(UnitError::ExtractionCorrupt),
            Option::Some(entries) => if tex_files_of(entries).len() == 0 {
                Err(UnitError::ExtractionEmpty)
            } else {
                Ok(tex_files_of(entries))
            },
        },
    }
}

fn copy_bytes(src: &Vec<u8>) -> (r: Vec<u8>)
    ensures
        r@ == src@,
{
    let mut out: Vec<u8> = Vec::new();
    let mut i: usize = 0;
    while i < src.len()
        invariant
            i <= src@.len(),
            out@ =~= src@.subrange(0, i as int),
        decreases src@.len() - i,
    {
        out.push(src[i]);
        i += 1;
    }
    proof {
        assert(out@ =~= src@);
    }
    out
}

/// Keeps exactly the qualifying entries, in encounter order.
pub fn filter_entries(entries: &Vec<TarEntry>) -> (r: Vec<TexFile>)
    ensures
        r.deep_view() == tex_files_of(entries.deep_view()),
{
    let ghost all = entries.deep_view();
    let mut out: Vec<TexFile> = Vec::new();
    let mut i: usize = 0;
    while i < entries.len()
        invariant
            i <= all.len(),
            all == entries.deep_view(),
            all.len() == entries@.len(),
            out.deep_view() =~= tex_files_of(all.subrange(0, i as int)),
        decreases entries@.len() - i,
    {
        let e = &entries[i];
        proof {
            assert(all.subrange(0, i + 1 as int).drop_last() =~= all.subrange(0, i as int));
            assert(all[i as int] == entries@[i as int].deep_view());
        }
        match &e.name {
            Some(n) => {
                if name_qualifies(n.as_str()) {
                    out.push(TexFile { name: n.clone(), content: copy_bytes(&e.content) });
                }
            },
            None => {},
        }
        i += 1;
    }
    proof {
        assert(all.subrange(0, all.len() as int) =~= all);
        assert(out.deep_view() =~= tex_files_of(all));
    }
    out
}

/// Extraction end to end: decompress, unpack, filter. Returns the qualifying
/// files in container order; fails exactly as `spec_extract` says.
pub fn extract(raw: &[u8]) -> (r: Result<Vec<TexFile>, UnitError>)
    ensures
        r matches Ok(files) ==> spec_extract(raw@) == Ok::<_, UnitError>(files.deep_view()),
        r matches Err(e) ==> spec_extract(raw@) == Err::<Seq<(Seq<char>, Seq<u8>)>, _>(e),
{
    let plain = match gunzip(raw) {
        Some(p) => p,
        None => {
            return Err(UnitError::ExtractionCorrupt);
        },
    };
    let entries = match untar(plain.as_slice()) {
        Some(es) => es,
        None => {
            return Err(UnitError::ExtractionCorrupt);
        },
    };
    let files = filter_entries(&entries);
    if files.len() == 0 {
        Err(UnitError::ExtractionEmpty)
    } else {
        Ok(files)
    }
}

} // verus!
