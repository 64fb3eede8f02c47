//! Images: layers, config and the manifest that lists them by digest, and
//! the manifest's own digest over its JSON form.
use vstd::prelude::*;
use vstd::string::{StrSliceExecFns, StringExecFns};
use vstd::utf8::encode_utf8;

use oci_distribution::config::{Architecture, ConfigFile, Os};
use oci_distribution::errors::OciDistributionError;
use oci_distribution::{client, manifest};

use crate::artifact::Layer;
use crate::target::opt_view;
use crate::text::{decimal, push_char, push_decimal};

verus! {

/// What `oci_distribution` computes as the digest of the bytes `data`:
/// `sha256:` followed by the SHA-256 hash in lower-case hexadecimal.
pub uninterp spec fn sha256_digest_of(data: Seq<u8>) -> Seq<char>;

/// Relies on `oci_distribution::client::ImageLayer::sha256_digest`, which
/// formats `sha256:` and the 64 hexadecimal digits of the SHA-256 hash of
/// the layer's data (the same function that `OciImageManifest::build` uses).
#[verifier::external_body]
fn sha256_digest(data: &[u8]) -> (r: String)
    ensures
        r@ == sha256_digest_of(data@),
        r@.len() == 71,
{
    oci_distribution::client::ImageLayer::new(data.to_vec(), String::new(), None).sha256_digest()
}

/// A reference from a manifest to a blob: its media type, digest and size.
#[derive(Clone, Debug)]
pub struct Descriptor {
    pub media_type: String,
    pub digest: String,
    pub size: i64,
}

/// The manifest of an image: its config and its layers, in order, by
/// descriptor.
#[derive(Clone, Debug)]
pub struct Manifest {
    pub schema_version: u8,
    pub media_type: Option<String>,
    pub config: Descriptor,
    pub layers: Vec<Descriptor>,
}

/// The serialized config document of an image, with its media type.
#[derive(Clone, Debug)]
pub struct ConfigBlob {
    pub data: Vec<u8>,
    pub media_type: String,
}

/// `d` describes a blob of media type `media_type` and contents `data`.
pub open spec fn describes(d: Descriptor, media_type: Seq<char>, data: Seq<u8>) -> bool {
    &&& d.media_type@ == media_type
    &&& d.digest@ == sha256_digest_of(data)
    &&& d.size == data.len() as i64
}

/// Relies on `oci_distribution::manifest::OciImageManifest::build`: schema
/// version 2, no media type, the config and each layer, in order, described
/// by media type, digest and size.
#[verifier::external_body]
fn build_manifest(layers: &Vec<Layer>, config: &ConfigBlob) -> (r: Manifest)
    ensures
        r.schema_version == 2,
        r.media_type is None,
        describes(r.config, config.media_type@, config.data@),
        r.layers.len() == layers.len(),
        forall|i: int|
            0 <= i < layers.len() ==> describes(
                #[trigger] r.layers[i],
                layers[i].media_type@,
                layers[i].data@,
            ),
{
    let image_layers: Vec<client::ImageLayer> = layers
        .iter()
        .map(|l| client::ImageLayer::new(l.data.clone(), l.media_type.clone(), None))
        .collect();
    let c = client::Config::new(config.data.clone(), config.media_type.clone(), None);
    let m = manifest::OciImageManifest::build(&image_layers, &c, None);
    let d = |d: manifest::OciDescriptor| Descriptor { media_type: d.media_type, digest: d.digest, size: d.size };
    Manifest {
        schema_version: m.schema_version,
        media_type: m.media_type,
        config: d(m.config),
        layers: m.layers.into_iter().map(d).collect(),
    }
}

/// How `c` stands inside a canonical JSON string: quote and backslash
/// escaped by a backslash, every other character as it is.
pub open spec fn json_char(c: char) -> Seq<char> {
    if c == '"' || c == '\\' {
        seq!['\\', c]
    } else {
        seq![c]
    }
}

/// The characters of `s`, each as it stands inside a JSON string.
pub open spec fn json_escaped(s: Seq<char>) -> Seq<char>
    decreases s.len(),
{
    if s.len() == 0 {
        Seq::empty()
    } else {
        json_escaped(s.drop_last()) + json_char(s.last())
    }
}

/// `s` as a JSON string literal.
pub open spec fn json_str(s: Seq<char>) -> Seq<char> {
    seq!['"'] + json_escaped(s) + seq!['"']
}

/// The decimal numeral of the integer `n`, with a `-` where it is negative.
pub open spec fn int_decimal(n: int) -> Seq<char> {
    if n < 0 {
        seq!['-'] + decimal((-n) as nat)
    } else {
        decimal(n as nat)
    }
}

/// Appends `s` to `out` as a JSON string literal.
fn push_json_str(out: &mut String, s: &str)
    ensures
        final(out)@ == old(out)@ + json_str(s@),
{
    push_char(out, '"');
    let n = s.unicode_len();
    let mut i: usize = 0;
    while i < n
        invariant
            i <= n,
            n == s@.len(),
            out@ == old(out)@.push('"') + json_escaped(s@.subrange(0, i as int)),
        decreases n - i,
    {
        let c = s.get_char(i);
        let ghost before = out@;
        if c == '"' || c == '\\' {
            push_char(out, '\\');
        }
        push_char(out, c);
        proof {
            let p = s@.subrange(0, i as int + 1);
            assert(p.drop_last() =~= s@.subrange(0, i as int));
            assert(p.last() == c);
            assert(out@ =~= before + json_char(c));
        }
        i = i + 1;
    }
    assert(s@.subrange(0, n as int) =~= s@);
    push_char(out, '"');
    assert(out@ =~= old(out)@ + json_str(s@));
}

/// Appends the decimal numeral of `n` to `out`.
fn push_int(out: &mut String, n: i64)
    ensures
        final(out)@ == old(out)@ + int_decimal(n as int),
{
    if n < 0 {
        push_char(out, '-');
        let magnitude: u64 = (0 - (n as i128)) as u64;
        push_decimal(out, magnitude);
        assert(out@ =~= old(out)@ + int_decimal(n as int));
    } else {
        push_decimal(out, n as u64);
    }
}

/// The JSON form of a descriptor.
pub open spec fn descriptor_json(d: Descriptor) -> Seq<char> {
    "{\"digest\":"@ + json_str(d.digest@) + ",\"mediaType\":"@ + json_str(d.media_type@)
        + ",\"size\":"@ + int_decimal(d.size as int) + "}"@
}

/// The JSON forms of the descriptors `ds`, separated by commas.
pub open spec fn descriptors_json(ds: Seq<Descriptor>) -> Seq<char>
    decreases ds.len(),
{
    if ds.len() == 0 {
        Seq::empty()
    } else if ds.len() == 1 {
        descriptor_json(ds[0])
    } else {
        descriptors_json(ds.drop_last()) + ","@ + descriptor_json(ds.last())
    }
}

/// The canonical JSON form of a manifest, as the registry client sends it:
/// compact, keys in lexicographic order, no absent optional field. (Strings
/// are taken as they are: canonical JSON also puts them in Unicode
/// Normalization Form C, which every ASCII string is.)
pub open spec fn manifest_json(m: Manifest) -> Seq<char> {
    let media = match m.media_type {
        Some(t) => ",\"mediaType\":"@ + json_str(t@),
        None => Seq::empty(),
    };
    "{\"config\":"@ + descriptor_json(m.config) + ",\"layers\":["@ + descriptors_json(m.layers@)
        + "]"@ + media + ",\"schemaVersion\":"@ + decimal(m.schema_version as nat) + "}"@
}

/// Appends the JSON form of a descriptor to `out`.
fn push_descriptor_json(out: &mut String, d: &Descriptor)
    ensures
        final(out)@ == old(out)@ + descriptor_json(*d),
{
    out.append("{\"digest\":");
    push_json_str(out, d.digest.as_str());
    out.append(",\"mediaType\":");
    push_json_str(out, d.media_type.as_str());
    out.append(",\"size\":");
    push_int(out, d.size);
    out.append("}");
    assert(out@ =~= old(out)@ + descriptor_json(*d));
}

impl Manifest {
    /// The JSON form of this manifest, over which its digest is taken.
    pub fn to_json(&self) -> (r: String)
        ensures
            r@ == manifest_json(*self),
    {
        let mut out = String::new();
        out.append("{\"config\":");
        push_descriptor_json(&mut out, &self.config);
        out.append(",\"layers\":[");
        let ghost prefix = out@;
        let n = self.layers.len();
        for i in 0..n
            invariant
                n == self.layers@.len(),
                out@ == prefix + descriptors_json(self.layers@.subrange(0, i as int)),
        {
            if i > 0 {
                out.append(",");
            }
            push_descriptor_json(&mut out, &self.layers[i]);
            proof {
                let ds = self.layers@.subrange(0, i as int + 1);
                assert(ds.drop_last() =~= self.layers@.subrange(0, i as int));
                assert(ds.last() == self.layers@[i as int]);
                if i == 0 {
                    assert(ds.len() == 1);
                    assert(out@ =~= prefix + descriptors_json(ds));
                } else {
                    assert(out@ =~= prefix + descriptors_json(ds));
                }
            }
        }
        assert(self.layers@.subrange(0, n as int) =~= self.layers@);
        out.append("]");
        match &self.media_type {
            Some(t) => {
                out.append(",\"mediaType\":");
                push_json_str(&mut out, t.as_str());
            },
            None => {},
        }
        out.append(",\"schemaVersion\":");
        push_decimal(&mut out, self.schema_version as u64);
        out.append("}");
        assert(out@ =~= manifest_json(*self));
        out
    }
}

/// `a` and `b` describe alike: same media type, digest and size.
pub open spec fn same_descriptor(a: Descriptor, b: Descriptor) -> bool {
    a.media_type@ == b.media_type@ && a.digest@ == b.digest@ && a.size == b.size
}

/// `s` holds no character that JSON escapes.
pub open spec fn json_plain(s: Seq<char>) -> bool {
    forall|k: int| 0 <= k < s.len() ==> s[k] != '"' && s[k] != '\\'
}

proof fn lemma_plain_unescaped(s: Seq<char>)
    requires
        json_plain(s),
    ensures
        json_escaped(s) == s,
    decreases s.len(),
{
    if s.len() > 0 {
        assert(json_plain(s.drop_last()));
        lemma_plain_unescaped(s.drop_last());
        assert(s =~= s.drop_last() + seq![s.last()]);
    }
}

/// Two sequences of equal length that differ stay different inside the same
/// surroundings.
proof fn lemma_differ_inside(p: Seq<char>, x: Seq<char>, y: Seq<char>, q: Seq<char>)
    requires
        x != y,
        x.len() == y.len(),
    ensures
        p + x + q != p + y + q,
        (p + x + q).len() == (p + y + q).len(),
{
    let k = choose|k: int| 0 <= k < x.len() && x[k] != y[k];
    assert(exists|k: int| 0 <= k < x.len() && x[k] != y[k]) by {
        if forall|k: int| 0 <= k < x.len() ==> x[k] == y[k] {
            assert(x =~= y);
        }
    }
    assert((p + x + q)[p.len() + k] == x[k]);
    assert((p + y + q)[p.len() + k] == y[k]);
}

proof fn lemma_same_descriptors_json(a: Seq<Descriptor>, b: Seq<Descriptor>)
    requires
        a.len() == b.len(),
        forall|j: int| 0 <= j < a.len() ==> same_descriptor(#[trigger] a[j], b[j]),
    ensures
        descriptors_json(a) == descriptors_json(b),
    decreases a.len(),
{
    if a.len() > 1 {
        lemma_same_descriptors_json(a.drop_last(), b.drop_last());
        assert(same_descriptor(a[a.len() - 1], b[b.len() - 1]));
    } else if a.len() == 1 {
        assert(same_descriptor(a[0], b[0]));
    }
}

proof fn lemma_descriptor_digest_differs(a: Descriptor, b: Descriptor)
    requires
        a.media_type@ == b.media_type@,
        a.size == b.size,
        a.digest@ != b.digest@,
        a.digest@.len() == b.digest@.len(),
        json_plain(a.digest@),
        json_plain(b.digest@),
    ensures
        descriptor_json(a) != descriptor_json(b),
        descriptor_json(a).len() == descriptor_json(b).len(),
{
    lemma_plain_unescaped(a.digest@);
    lemma_plain_unescaped(b.digest@);
    let p = "{\"digest\":"@ + seq!['"'];
    let q = seq!['"'] + ",\"mediaType\":"@ + json_str(a.media_type@) + ",\"size\":"@
        + int_decimal(a.size as int) + "}"@;
    lemma_differ_inside(p, a.digest@, b.digest@, q);
    assert(descriptor_json(a) =~= p + a.digest@ + q);
    assert(descriptor_json(b) =~= p + b.digest@ + q);
}

proof fn lemma_descriptors_digest_differs(a: Seq<Descriptor>, b: Seq<Descriptor>, i: int)
    requires
        a.len() == b.len(),
        0 <= i < a.len(),
        forall|j: int| 0 <= j < a.len() && j != i ==> same_descriptor(#[trigger] a[j], b[j]),
        a[i].media_type@ == b[i].media_type@,
        a[i].size == b[i].size,
        a[i].digest@ != b[i].digest@,
        a[i].digest@.len() == b[i].digest@.len(),
        json_plain(a[i].digest@),
        json_plain(b[i].digest@),
    ensures
        descriptors_json(a) != descriptors_json(b),
        descriptors_json(a).len() == descriptors_json(b).len(),
    decreases a.len(),
{
    let n = a.len() - 1;
    lemma_descriptor_digest_differs(a[i], b[i]);
    if a.len() == 1 {
    } else if i == n {
        lemma_same_descriptors_json(a.drop_last(), b.drop_last());
        let p = descriptors_json(a.drop_last()) + ","@;
        lemma_differ_inside(p, descriptor_json(a[n]), descriptor_json(b[n]), Seq::empty());
        assert(descriptors_json(a) =~= p + descriptor_json(a[n]) + Seq::empty());
        assert(descriptors_json(b) =~= p + descriptor_json(b[n]) + Seq::empty());
    } else {
        lemma_descriptors_digest_differs(a.drop_last(), b.drop_last(), i);
        assert(same_descriptor(a[n], b[n]));
        let q = ","@ + descriptor_json(a[n]);
        lemma_differ_inside(
            Seq::empty(),
            descriptors_json(a.drop_last()),
            descriptors_json(b.drop_last()),
            q,
        );
        assert(descriptors_json(a) =~= Seq::empty() + descriptors_json(a.drop_last()) + q);
        assert(descriptors_json(b) =~= Seq::empty() + descriptors_json(b.drop_last()) + q);
    }
}

/// The serialised form of a manifest, over which its digest is taken, tells
/// layer digests apart: two manifests that differ only in the digest of one
/// layer (of the same length, with no character that JSON escapes)
/// serialise differently.
pub proof fn lemma_layer_digest_changes_json(a: Manifest, b: Manifest, i: int)
    requires
        a.schema_version == b.schema_version,
        opt_view(a.media_type) == opt_view(b.media_type),
        same_descriptor(a.config, b.config),
        a.layers.len() == b.layers.len(),
        0 <= i < a.layers.len(),
        forall|j: int|
            0 <= j < a.layers.len() && j != i ==> same_descriptor(#[trigger] a.layers[j], b.layers[j]),
        a.layers[i].media_type@ == b.layers[i].media_type@,
        a.layers[i].size == b.layers[i].size,
        a.layers[i].digest@ != b.layers[i].digest@,
        a.layers[i].digest@.len() == b.layers[i].digest@.len(),
        json_plain(a.layers[i].digest@),
        json_plain(b.layers[i].digest@),
    ensures
        manifest_json(a) != manifest_json(b),
{
    lemma_descriptors_digest_differs(a.layers@, b.layers@, i);
    let media = match a.media_type {
        Some(t) => ",\"mediaType\":"@ + json_str(t@),
        None => Seq::empty(),
    };
    let p = "{\"config\":"@ + descriptor_json(a.config) + ",\"layers\":["@;
    let q = "]"@ + media + ",\"schemaVersion\":"@ + decimal(a.schema_version as nat) + "}"@;
    lemma_differ_inside(p, descriptors_json(a.layers@), descriptors_json(b.layers@), q);
    assert(manifest_json(a) =~= p + descriptors_json(a.layers@) + q);
    assert(manifest_json(b) =~= p + descriptors_json(b.layers@) + q);
}

/// The media type of a config document.
pub open spec fn config_media_type() -> Seq<char> {
    "application/vnd.oci.image.config.v1+json"@
}

/// The media type of an OCI image manifest.
pub open spec fn manifest_media_type() -> Seq<char> {
    "application/vnd.oci.image.manifest.v1+json"@
}

/// Relies on `oci_distribution::manifest::OCI_IMAGE_MEDIA_TYPE`.
#[verifier::external_body]
pub(crate) fn oci_manifest_media_type() -> (r: String)
    ensures
        r@ == manifest_media_type(),
{
    manifest::OCI_IMAGE_MEDIA_TYPE.to_string()
}

#[verifier::external_type_specification]
#[verifier::external_body]
pub struct ExOciDistributionError(OciDistributionError);

/// The operating system and architecture that a config document names.
#[derive(Clone, Copy, Debug, PartialEq, Eq, Structural)]
pub enum Platform {
    LinuxAmd64,
    LinuxArm64,
}

impl Platform {
    /// The name of the platform's operating system in a config document.
    pub open spec fn os_name(self) -> Seq<char> {
        "linux"@
    }

    /// The name of the platform's architecture in a config document.
    pub open spec fn architecture_name(self) -> Seq<char> {
        match self {
            Platform::LinuxAmd64 => "amd64"@,
            Platform::LinuxArm64 => "arm64"@,
        }
    }
}

/// What `oci_distribution::client::Config::oci_v1_from_config_file` writes
/// for a config file that names the operating system `os` and the
/// architecture `architecture` and is otherwise default.
pub uninterp spec fn config_json_of(os: Seq<char>, architecture: Seq<char>) -> Seq<u8>;

/// Relies on `oci_distribution::client::Config::oci_v1_from_config_file`:
/// a config file that names the platform, otherwise default, serialised as
/// JSON, with the config media type. Serialising such a file does not fail:
/// its default fields hold no map and no custom serialiser.
#[verifier::external_body]
pub(crate) fn platform_config(platform: Platform) -> (r: Result<ConfigBlob, OciDistributionError>)
    ensures
        r is Ok,
        r->Ok_0.media_type@ == config_media_type(),
        r->Ok_0.data@ == config_json_of(platform.os_name(), platform.architecture_name()),
{
    let (os, architecture) = match platform {
        Platform::LinuxAmd64 => (Os::Linux, Architecture::Amd64),
        Platform::LinuxArm64 => (Os::Linux, Architecture::Arm64),
    };
    let file = ConfigFile { os, architecture, ..Default::default() };
    match client::Config::oci_v1_from_config_file(file, None) {
        Ok(c) => Ok(ConfigBlob { data: c.data, media_type: c.media_type }),
        Err(e) => Err(e),
    }
}

/// An image: its layers, its config, and, once computed, its manifest and
/// the manifest's digest.
#[derive(Clone, Debug)]
pub struct Image {
    pub manifest: Option<Manifest>,
    pub config: ConfigBlob,
    pub layers: Vec<Layer>,
    pub digest: Option<String>,
}

/// Why no image could be assembled.
#[derive(Clone, Copy, Debug, PartialEq, Eq, Structural)]
pub enum ImageError {
    /// The config document could not be serialised.
    ConfigEncoding,
}

/// The digest of a manifest: that of the UTF-8 bytes of its JSON form.
pub open spec fn manifest_digest(m: Manifest) -> Seq<char> {
    sha256_digest_of(encode_utf8(manifest_json(m)))
}

/// `m` is the OCI image manifest of the layers `layers`, in order, and of
/// the config `config`.
pub open spec fn is_image_manifest(m: Manifest, layers: Seq<Layer>, config: ConfigBlob) -> bool {
    &&& m.schema_version == 2
    &&& m.media_type matches Some(t) && t@ == manifest_media_type()
    &&& describes(m.config, config.media_type@, config.data@)
    &&& m.layers.len() == layers.len()
    &&& forall|i: int|
        0 <= i < layers.len() ==> describes(
            #[trigger] m.layers[i],
            layers[i].media_type@,
            layers[i].data@,
        )
}

/// `img` holds the manifest of its own layers and config, and that
/// manifest's digest.
pub open spec fn is_assembled(img: Image) -> bool {
    &&& img.manifest matches Some(m) && (is_image_manifest(m, img.layers@, img.config)
        && (img.digest matches Some(d) && (d@ == manifest_digest(m) && d@.len() == 71)))
}

/// Computes the digest of the manifest `m`.
pub(crate) fn digest_manifest(m: &Manifest) -> (r: String)
    ensures
        r@ == manifest_digest(*m),
        r@.len() == 71,
{
    let json = m.to_json();
    sha256_digest(json.as_str().as_bytes())
}

/// Wraps `layers` and `config` into an image: builds the OCI image manifest
/// that lists them, and takes its digest as the image's.
pub fn assemble_image(layers: Vec<Layer>, config: ConfigBlob) -> (r: Image)
    ensures
        r.layers@ == layers@,
        r.config == config,
        is_assembled(r),
{
    let mut m = build_manifest(&layers, &config);
    m.media_type = Some(oci_manifest_media_type());
    let digest = digest_manifest(&m);
    Image { manifest: Some(m), config, layers, digest: Some(digest) }
}

/// The config of the default platform, Linux on amd64.
pub open spec fn default_config(c: ConfigBlob) -> bool {
    &&& c.media_type@ == config_media_type()
    &&& c.data@ == config_json_of(
        Platform::LinuxAmd64.os_name(),
        Platform::LinuxAmd64.architecture_name(),
    )
}

/// An image of `layers` and the default config (Linux on amd64). Building
/// it always succeeds, and its digest is a non-empty `sha256:` digest.
pub fn gen_image(layers: Vec<Layer>) -> (r: Result<Image, ImageError>)
    ensures
        r matches Ok(img) && (img.layers@ == layers@ && default_config(img.config) && is_assembled(
            img,
        )),
{
    match platform_config(Platform::LinuxAmd64) {
        Ok(config) => Ok(assemble_image(layers, config)),
        Err(_) => Err(ImageError::ConfigEncoding),
    }
}

/// The digest of a layer's data, computed anew.
pub fn layer_digest(layer: &Layer) -> (r: String)
    ensures
        r@ == sha256_digest_of(layer.data@),
{
    sha256_digest(layer.data.as_slice())
}

impl Image {
    /// The digest of this image's manifest, computed anew; `None` where it
    /// has no manifest.
    pub fn compute_digest(&self) -> (r: Option<String>)
        ensures
            match self.manifest {
                Some(m) => r matches Some(d) && d@ == manifest_digest(m),
                None => r is None,
            },
    {
        match &self.manifest {
            Some(m) => Some(digest_manifest(m)),
            None => None,
        }
    }
}

/// In an assembled image the manifest lists as many layers as the image
/// holds, and each entry's digest is the digest of the corresponding
/// layer's data.
pub proof fn lemma_manifest_matches_layers(img: Image)
    requires
        is_assembled(img),
    ensures
        img.manifest matches Some(m) && m.layers.len() == img.layers.len() && forall|i: int|
            0 <= i < img.layers.len() ==> (#[trigger] m.layers[i]).digest@ == sha256_digest_of(
                img.layers[i].data@,
            ),
{
    let m = img.manifest->Some_0;
    assert forall|i: int| 0 <= i < img.layers.len() implies (#[trigger] m.layers[i]).digest@
        == sha256_digest_of(img.layers[i].data@) by {
        assert(describes(m.layers[i], img.layers@[i].media_type@, img.layers@[i].data@));
    }
}

/// An assembled image's manifest lists as many layers as the image holds,
/// and its digest is non-empty and is what recomputing it from the manifest
/// (`Image::compute_digest`) gives, however often that is done.
pub proof fn lemma_assembled_digest_stable(img: Image)
    requires
        is_assembled(img),
    ensures
        img.manifest matches Some(m) && (m.layers.len() == img.layers.len() && (img.digest matches Some(
            d,
        ) && (d@.len() > 0 && d@ == manifest_digest(m)))),
{
}

/// The manifests of the same layers and the same config serialise alike.
proof fn lemma_same_inputs_same_json(ma: Manifest, mb: Manifest, a: Image, b: Image)
    requires
        is_image_manifest(ma, a.layers@, a.config),
        is_image_manifest(mb, b.layers@, b.config),
        same_inputs(a, b),
    ensures
        manifest_json(ma) == manifest_json(mb),
{
    assert forall|j: int| 0 <= j < ma.layers@.len() implies same_descriptor(
        #[trigger] ma.layers@[j],
        mb.layers@[j],
    ) by {
        assert(describes(ma.layers[j], a.layers@[j].media_type@, a.layers@[j].data@));
        assert(describes(mb.layers[j], b.layers@[j].media_type@, b.layers@[j].data@));
    }
    lemma_same_descriptors_json(ma.layers@, mb.layers@);
}

/// `a` and `b` hold the same layers, in the same order, and the same config:
/// media types and bytes alike.
pub open spec fn same_inputs(a: Image, b: Image) -> bool {
    &&& a.layers.len() == b.layers.len()
    &&& forall|i: int|
        0 <= i < a.layers.len() ==> (#[trigger] a.layers[i]).data@ == b.layers[i].data@
            && a.layers[i].media_type@ == b.layers[i].media_type@
    &&& a.config.data@ == b.config.data@
    &&& a.config.media_type@ == b.config.media_type@
}

/// Digesting is idempotent: two images assembled from the same layers and
/// the same config, as two calls of `gen_image` on equal layers are, carry
/// the same non-empty digest.
pub proof fn lemma_same_inputs_same_digest(a: Image, b: Image)
    requires
        is_assembled(a),
        is_assembled(b),
        same_inputs(a, b),
    ensures
        a.digest matches Some(d) && (b.digest matches Some(e) && (d@ == e@ && d@.len() > 0)),
{
    let ma = a.manifest->Some_0;
    let mb = b.manifest->Some_0;
    lemma_same_inputs_same_json(ma, mb, a, b);
}

/// An image's digest depends on its manifest's serialised form alone: two
/// manifests that serialise alike have the same digest, so computing it
/// twice from an unchanged manifest gives the same value.
pub proof fn lemma_digest_deterministic(a: Manifest, b: Manifest)
    requires
        manifest_json(a) == manifest_json(b),
    ensures
        manifest_digest(a) == manifest_digest(b),
{
}

} // verus!
