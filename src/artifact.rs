//! Synthetic image content: random names and data, single-entry tar
//! archives, and layers that hold them plain or gzip-compressed.
use vstd::prelude::*;
use vstd::string::StringExecFns;

use crate::text::push_char;

verus! {

/// The length of each random name that a synthetic path is made of.
pub const NAME_LEN: usize = 10;

/// The number of directories above the file of a synthetic archive.
pub const PATH_SEGMENTS: usize = 3;

/// One mebibyte.
pub const MEGABYTE: usize = 1048576;

/// An ASCII letter or digit.
pub open spec fn is_alnum(c: char) -> bool {
    ('0' <= c && c <= '9') || ('A' <= c && c <= 'Z') || ('a' <= c && c <= 'z')
}

/// `s` is a name of `len` ASCII letters and digits.
pub open spec fn is_name(s: Seq<char>, len: nat) -> bool {
    s.len() == len && forall|k: int| 0 <= k < s.len() ==> is_alnum(#[trigger] s[k])
}

/// `p` is `segments` names of `NAME_LEN` letters and digits, joined by `/`.
pub open spec fn is_path(p: Seq<char>, segments: nat) -> bool
    decreases segments,
{
    if segments == 0 {
        p.len() == 0
    } else if segments == 1 {
        is_name(p, NAME_LEN as nat)
    } else {
        let cut = p.len() - NAME_LEN - 1;
        &&& p.len() > NAME_LEN + 1
        &&& is_path(p.subrange(0, cut), (segments - 1) as nat)
        &&& p[cut] == '/'
        &&& is_name(p.subrange(cut + 1, p.len() as int), NAME_LEN as nat)
    }
}

/// Relies on `rand::distributions::Alphanumeric`, sampled from the thread's
/// generator: one byte among `A-Z`, `a-z` and `0-9`.
#[verifier::external_body]
fn random_alphanumeric() -> (r: u8)
    ensures
        is_alnum(r as char),
{
    rand::Rng::sample(&mut rand::thread_rng(), rand::distributions::Alphanumeric)
}

/// A random name of `size` ASCII letters and digits.
pub fn gen_file_name(size: usize) -> (r: String)
    ensures
        is_name(r@, size as nat),
{
    let mut name = String::new();
    for i in 0..size
        invariant
            is_name(name@, i as nat),
    {
        let b = random_alphanumeric();
        push_char(&mut name, b as char);
    }
    name
}

/// A random relative path of `segments` names of `NAME_LEN` letters and
/// digits, joined by `/`.
pub fn gen_file_path(segments: usize) -> (r: String)
    ensures
        is_path(r@, segments as nat),
{
    let mut path = String::new();
    for i in 0..segments
        invariant
            is_path(path@, i as nat),
    {
        let name = gen_file_name(NAME_LEN);
        let ghost prev = path@;
        if i > 0 {
            push_char(&mut path, '/');
        }
        path.append(name.as_str());
        proof {
            if i > 0 {
                let cut = path@.len() - NAME_LEN - 1;
                assert(path@.subrange(0, cut) =~= prev);
                assert(path@.subrange(cut + 1, path@.len() as int) =~= name@);
            } else {
                assert(path@ =~= name@);
            }
        }
    }
    path
}

/// `p` is a path that a tar header holds as it is: relative, non-empty, at
/// most 100 bytes, of ASCII letters, digits and `/`.
pub open spec fn is_archive_path(p: Seq<char>) -> bool {
    &&& 0 < p.len() <= 100
    &&& p[0] != '/'
    &&& forall|k: int| 0 <= k < p.len() ==> is_alnum(#[trigger] p[k]) || p[k] == '/'
}

/// A path of names joined by `/` starts with a name and holds letters,
/// digits and `/` alone.
pub proof fn lemma_path_shape(p: Seq<char>, segments: nat)
    requires
        is_path(p, segments),
        segments >= 1,
    ensures
        p.len() == segments * (NAME_LEN + 1) - 1,
        is_alnum(p[0]),
        forall|k: int| 0 <= k < p.len() ==> is_alnum(#[trigger] p[k]) || p[k] == '/',
    decreases segments,
{
    if segments > 1 {
        let cut = p.len() - NAME_LEN - 1;
        let head = p.subrange(0, cut);
        let tail = p.subrange(cut + 1, p.len() as int);
        lemma_path_shape(head, (segments - 1) as nat);
        assert(p[0] == head[0]);
        assert forall|k: int| 0 <= k < p.len() implies is_alnum(#[trigger] p[k]) || p[k] == '/' by {
            if k < cut {
                assert(p[k] == head[k]);
            } else if k > cut {
                assert(p[k] == tail[k - cut - 1]);
            }
        }
    }
}

/// What the `tar` crate writes for an archive that holds one regular file,
/// of contents `data`, at `path`.
pub uninterp spec fn tar_archive_of(path: Seq<char>, data: Seq<u8>) -> Seq<u8>;

/// Relies on the `tar` crate: `Header::new_gnu`, with its size and checksum
/// set, `Builder::append_data` and `Builder::into_inner` write an archive of
/// one regular file. Writing into a `Vec` does not fail, and neither does
/// setting a relative path of at most 100 bytes that holds no `..`.
#[verifier::external_body]
fn tar_one_file(path: &str, data: &Vec<u8>) -> (r: Vec<u8>)
    requires
        is_archive_path(path@),
    ensures
        r@ == tar_archive_of(path@, data@),
{
    let mut header = tar::Header::new_gnu();
    header.set_size(data.len() as u64);
    header.set_cksum();
    let mut builder = tar::Builder::new(Vec::new());
    builder.append_data(&mut header, path, data.as_slice()).expect("a Vec takes any write");
    builder.into_inner().expect("a Vec takes any write")
}

/// Relies on `rand::RngCore::fill_bytes` on the thread's generator: the
/// bytes are overwritten, and their number stays.
#[verifier::external_body]
fn fill_random(buf: &mut Vec<u8>)
    ensures
        final(buf)@.len() == old(buf)@.len(),
{
    rand::RngCore::fill_bytes(&mut rand::thread_rng(), buf.as_mut_slice())
}

/// `size` random bytes.
pub fn gen_file_data(size: usize) -> (r: Vec<u8>)
    ensures
        r@.len() == size,
{
    let mut data: Vec<u8> = vec![0u8; size];
    fill_random(&mut data);
    data
}

/// `a` is a tar archive of one file of `size` bytes, at a path of
/// `PATH_SEGMENTS` directories and a file, each named by `NAME_LEN` letters
/// and digits.
pub open spec fn is_synthetic_archive(a: Seq<u8>, size: nat) -> bool {
    exists|path: Seq<char>, data: Seq<u8>|
        is_path(path, (PATH_SEGMENTS + 1) as nat) && data.len() == size && a == tar_archive_of(
            path,
            data,
        )
}

/// A tar archive that holds one file of `size` random bytes, at a random
/// path of `PATH_SEGMENTS` directories.
pub fn gen_tar_file(size: usize) -> (r: Vec<u8>)
    ensures
        is_synthetic_archive(r@, size as nat),
{
    let path = gen_file_path(PATH_SEGMENTS + 1);
    let data = gen_file_data(size);
    proof {
        lemma_path_shape(path@, (PATH_SEGMENTS + 1) as nat);
    }
    let archive = tar_one_file(path.as_str(), &data);
    assert(is_path(path@, (PATH_SEGMENTS + 1) as nat) && data@.len() == size && archive@
        == tar_archive_of(path@, data@));
    archive
}

/// What flate2's `GzDecoder` decodes the bytes `data` to, read to the end;
/// `None` where they are not a gzip stream.
pub uninterp spec fn gunzip_of(data: Seq<u8>) -> Option<Seq<u8>>;

/// Relies on flate2's `write::GzEncoder` at the default compression level:
/// the gzip stream that it writes decodes back to the input. Writing into a
/// `Vec` does not fail.
#[verifier::external_body]
fn gzip(data: &Vec<u8>) -> (r: Vec<u8>)
    ensures
        gunzip_of(r@) == Some(data@),
{
    let mut encoder = flate2::write::GzEncoder::new(Vec::new(), flate2::Compression::default());
    std::io::Write::write_all(&mut encoder, data.as_slice()).expect("a Vec takes any write");
    encoder.finish().expect("a Vec takes any write")
}

/// Relies on flate2's `read::GzDecoder`, read to the end: the bytes that a
/// gzip stream decodes to, or `None` where the input is not one.
#[verifier::external_body]
fn gunzip(data: &Vec<u8>) -> (r: Option<Vec<u8>>)
    ensures
        match r {
            Some(v) => gunzip_of(data@) == Some(v@),
            None => gunzip_of(data@) is None,
        },
{
    let mut out = Vec::new();
    let mut decoder = flate2::read::GzDecoder::new(data.as_slice());
    match std::io::Read::read_to_end(&mut decoder, &mut out) {
        Ok(_) => Some(out),
        Err(_) => None,
    }
}

/// The media type of an uncompressed tar layer.
pub open spec fn tar_media_type() -> Seq<char> {
    "application/vnd.oci.image.layer.v1.tar"@
}

/// The media type of a gzip-compressed tar layer.
pub open spec fn gzip_media_type() -> Seq<char> {
    "application/vnd.oci.image.layer.v1.tar+gzip"@
}

/// One content blob of an image, with its media type.
#[derive(Clone, Debug)]
pub struct Layer {
    pub data: Vec<u8>,
    pub media_type: String,
}

/// Relies on `oci_distribution::client::ImageLayer::oci_v1`: a layer that
/// holds `data`, of the uncompressed tar media type, without annotations.
#[verifier::external_body]
fn oci_tar_layer(data: Vec<u8>) -> (r: Layer)
    ensures
        r.data@ == data@,
        r.media_type@ == tar_media_type(),
{
    let layer = oci_distribution::client::ImageLayer::oci_v1(data, None);
    Layer { data: layer.data, media_type: layer.media_type }
}

/// Relies on `oci_distribution::client::ImageLayer::oci_v1_gzip`: a layer
/// that holds `data`, of the gzip tar media type, without annotations.
#[verifier::external_body]
fn oci_gzip_layer(data: Vec<u8>) -> (r: Layer)
    ensures
        r.data@ == data@,
        r.media_type@ == gzip_media_type(),
{
    let layer = oci_distribution::client::ImageLayer::oci_v1_gzip(data, None);
    Layer { data: layer.data, media_type: layer.media_type }
}

/// The uncompressed archive that a layer stands for: its data, decompressed
/// where its media type says it is gzip-compressed.
pub open spec fn layer_payload(l: Layer) -> Option<Seq<u8>> {
    if l.media_type@ == gzip_media_type() {
        gunzip_of(l.data@)
    } else {
        Some(l.data@)
    }
}

/// The two layer media types differ.
proof fn lemma_media_types_differ()
    ensures
        tar_media_type() != gzip_media_type(),
{
    reveal_strlit("application/vnd.oci.image.layer.v1.tar");
    reveal_strlit("application/vnd.oci.image.layer.v1.tar+gzip");
    assert(tar_media_type().len() != gzip_media_type().len());
}

/// A layer that holds the archive `archive` as it is.
pub fn archive_layer(archive: Vec<u8>) -> (r: Layer)
    ensures
        r.media_type@ == tar_media_type(),
        r.data@ == archive@,
        layer_payload(r) == Some(archive@),
{
    proof {
        lemma_media_types_differ();
    }
    oci_tar_layer(archive)
}

/// A layer that holds the archive `archive` gzip-compressed; decompressing
/// it gives back `archive` exactly.
pub fn compress_layer(archive: &Vec<u8>) -> (r: Layer)
    ensures
        r.media_type@ == gzip_media_type(),
        layer_payload(r) == Some(archive@),
{
    oci_gzip_layer(gzip(archive))
}

/// The uncompressed archive of a layer: its data, decompressed where its
/// media type is the gzip one; `None` where that data is no gzip stream.
pub fn decompress_layer(layer: &Layer) -> (r: Option<Vec<u8>>)
    ensures
        match r {
            Some(v) => layer_payload(*layer) == Some(v@),
            None => layer_payload(*layer) is None,
        },
{
    let gzip_type = "application/vnd.oci.image.layer.v1.tar+gzip".to_string();
    if layer.media_type == gzip_type {
        gunzip(&layer.data)
    } else {
        Some(layer.data.clone())
    }
}

/// `l` is a synthetic layer of `size` bytes of content: a single-file
/// archive, plain or gzip-compressed, with the matching media type.
pub open spec fn is_synthetic_layer(l: Layer, size: nat) -> bool {
    &&& l.media_type@ == tar_media_type() || l.media_type@ == gzip_media_type()
    &&& layer_payload(l) matches Some(a) && is_synthetic_archive(a, size)
}

/// An uncompressed layer of a random single-file archive of `size` bytes.
pub fn gen_tar_image_layer(size: usize) -> (r: Layer)
    ensures
        r.media_type@ == tar_media_type(),
        is_synthetic_layer(r, size as nat),
{
    archive_layer(gen_tar_file(size))
}

/// A gzip-compressed layer of a random single-file archive of `size` bytes.
pub fn gen_gzip_tar_image_layer(size: usize) -> (r: Layer)
    ensures
        r.media_type@ == gzip_media_type(),
        is_synthetic_layer(r, size as nat),
{
    let archive = gen_tar_file(size);
    compress_layer(&archive)
}

/// Relies on `rand::random`: a value of the type's standard distribution,
/// of which nothing is promised.
pub assume_specification<T>[ rand::random::<T> ]() -> (r: T)
    where
        rand::distributions::Standard: rand::distributions::Distribution<T>,
;

/// `count` synthetic layers of `size` bytes of content each; each is
/// compressed or not at random, as a fair coin falls.
pub fn gen_rand_layers(size: usize, count: usize) -> (r: Vec<Layer>)
    ensures
        r.len() == count,
        forall|i: int| 0 <= i < count ==> is_synthetic_layer(#[trigger] r[i], size as nat),
{
    let mut layers: Vec<Layer> = Vec::new();
    for i in 0..count
        invariant
            layers.len() == i,
            forall|k: int| 0 <= k < i ==> is_synthetic_layer(#[trigger] layers[k], size as nat),
    {
        let compressed: bool = rand::random::<bool>();
        if compressed {
            layers.push(gen_gzip_tar_image_layer(size));
        } else {
            layers.push(gen_tar_image_layer(size));
        }
    }
    layers
}

} // verus!
