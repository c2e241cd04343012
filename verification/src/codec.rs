//! The two archive codecs, kept behind trusted wrappers: a gzip stream
//! decoder and a sequential tape-archive reader. The pipeline treats both as
//! external collaborators; their outputs are given names that the verified
//! extraction logic builds on.
use vstd::prelude::*;

verus! {

/// One raw container entry as the archive reader hands it out: the entry's
/// nominal path decoded as text where that is possible, and its full content.
#[derive(Debug, Clone)]
pub struct TarEntry {
    pub name: Option<String>,
    pub content: Vec<u8>,
}

impl View for TarEntry {
    type V = (Option<Seq<char>>, Seq<u8>);

    open spec fn view(&self) -> (Option<Seq<char>>, Seq<u8>) {
        (self.name.deep_view(), self.content@)
    }
}

impl DeepView for TarEntry {
    type V = (Option<Seq<char>>, Seq<u8>);

    open spec fn deep_view(&self) -> (Option<Seq<char>>, Seq<u8>) {
        self@
    }
}

/// What fully decoding a gzip stream yields: the decompressed bytes, or
/// nothing where the stream is not a well-formed gzip stream. A function of
/// the input bytes alone.
pub uninterp spec fn gunzip_of(bytes: Seq<u8>) -> Option<Seq<u8>>;

/// What parsing a byte sequence as a sequential container yields: the
/// entries in container order, each as (decoded name, content), or nothing
/// where the container raises a structural error mid-stream. A function of
/// the input bytes alone.
pub uninterp spec fn tar_entries_of(bytes: Seq<u8>) -> Option<Seq<(Option<Seq<char>>, Seq<u8>)>>;

/// The two-byte signature every gzip stream starts with.
pub open spec fn gzip_magic(bytes: Seq<u8>) -> bool {
    bytes.len() >= 2 && bytes[0] == 0x1fu8 && bytes[1] == 0x8bu8
}

/// Decides whether a payload's leading bytes match the compressed-stream
/// signature.
pub fn has_gzip_magic(bytes: &[u8]) -> (r: bool)
    ensures
        r == gzip_magic(bytes@),
{
    bytes.len() >= 2 && bytes[0] == 0x1f && bytes[1] == 0x8b
}

/// Relies on the gzip decoder of `async_compression` (module
/// `futures::bufread`): fully decompressing a byte slice is a deterministic
/// function of the bytes, failing exactly on malformed streams.
#[verifier::external_body]
pub(crate) fn gunzip(bytes: &[u8]) -> (r: Option<Vec<u8>>)
    ensures
        r is Some <==> gunzip_of(bytes@) is Some,
        r matches Some(plain) ==> Some(plain@) == gunzip_of(bytes@),
{
    let mut decoder = async_compression::futures::bufread::GzipDecoder::new(bytes);
    let mut out: Vec<u8> = Vec::new();
    match futures::executor::block_on(futures::AsyncReadExt::read_to_end(&mut decoder, &mut out)) {
        Ok(_) => Some(out),
        Err(_) => None,
    }
}

/// Relies on `tar`'s `Archive`: walking the entries of a byte slice visits
/// them in container order, hands out each entry's nominal path (decodable
/// as text or not) and content, and returns an error — never aborting, even
/// on hostile size fields, which it rejects with a checked add — exactly on
/// a structural fault. A deterministic function of the bytes.
#[verifier::external_body]
pub(crate) fn untar(bytes: &[u8]) -> (r: Option<Vec<TarEntry>>)
    ensures
        r is Some <==> tar_entries_of(bytes@) is Some,
        r matches Some(entries) ==> Some(entries.deep_view()) == tar_entries_of(bytes@),
{
    let mut archive = tar::Archive::new(bytes);
    let entries = archive.entries().ok()?;
    let mut out: Vec<TarEntry> = Vec::new();
    for entry in entries {
        let mut entry = entry.ok()?;
        let name = entry.path().ok().and_then(|p| p.to_str().map(|s| s.to_string()));
        let mut content: Vec<u8> = Vec::new();
        std::io::Read::read_to_end(&mut entry, &mut content).ok()?;
        out.push(TarEntry { name, content });
    }
    Some(out)
}

} // verus!
