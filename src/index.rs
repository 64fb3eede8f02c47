//! Synthetic multi-platform image indexes: one image per platform, and the
//! index that lists their manifests.
use vstd::prelude::*;
use vstd::utf8::encode_utf8;

use crate::artifact::{gen_rand_layers, is_synthetic_layer};
use crate::image::{
    assemble_image, config_json_of, is_assembled, oci_manifest_media_type, manifest_digest, manifest_json, manifest_media_type,
    platform_config, Descriptor, Image, ImageError, Platform,
};

verus! {

/// The media type of an OCI image index.
pub open spec fn index_media_type() -> Seq<char> {
    "application/vnd.oci.image.index.v1+json"@
}

/// Relies on `oci_distribution::manifest::OCI_IMAGE_INDEX_MEDIA_TYPE`.
#[verifier::external_body]
fn oci_index_media_type() -> (r: String)
    ensures
        r@ == index_media_type(),
{
    oci_distribution::manifest::OCI_IMAGE_INDEX_MEDIA_TYPE.to_string()
}

/// One entry of an image index: the manifest of one platform's image.
#[derive(Clone, Debug)]
pub struct IndexEntry {
    pub descriptor: Descriptor,
    pub platform: Platform,
}

/// An image index: a manifest of manifests, one per platform.
#[derive(Clone, Debug)]
pub struct ImageIndex {
    pub schema_version: u8,
    pub media_type: String,
    pub manifests: Vec<IndexEntry>,
}

/// A synthetic index with the images whose manifests it lists, in order.
#[derive(Clone, Debug)]
pub struct SyntheticIndex {
    pub images: Vec<Image>,
    pub index: ImageIndex,
}

/// `e` lists the assembled image `img`, of platform `p`, by its manifest.
pub open spec fn lists_image(e: IndexEntry, img: Image, p: Platform) -> bool {
    &&& is_assembled(img)
    &&& img.manifest matches Some(m) && (e.descriptor.digest@ == manifest_digest(m)
        && e.descriptor.size == encode_utf8(manifest_json(m)).len() as i64)
    &&& e.descriptor.media_type@ == manifest_media_type()
    &&& e.platform == p
    &&& img.config.data@ == config_json_of(p.os_name(), p.architecture_name())
}

/// The index entry that lists the assembled image `image`, of platform
/// `platform`: its manifest's media type, digest and size in bytes.
fn index_entry(image: &Image, platform: Platform) -> (e: IndexEntry)
    requires
        is_assembled(*image),
        image.config.data@ == config_json_of(platform.os_name(), platform.architecture_name()),
    ensures
        lists_image(e, *image, platform),
{
    let m = image.manifest.as_ref().unwrap();
    let digest = image.digest.as_ref().unwrap().clone();
    let json = m.to_json();
    let size = json.as_str().as_bytes().len() as i64;
    IndexEntry {
        descriptor: Descriptor { media_type: oci_manifest_media_type(), digest, size },
        platform,
    }
}

/// For each of `platforms`, an image of one synthetic layer of `layer_size`
/// bytes of content and that platform's config; and the index that lists
/// their manifests in the same order.
pub fn gen_image_index(platforms: &Vec<Platform>, layer_size: usize) -> (r: Result<
    SyntheticIndex,
    ImageError,
>)
    ensures
        r is Ok,
        r->Ok_0.index.schema_version == 2,
        r->Ok_0.index.media_type@ == index_media_type(),
        r->Ok_0.images.len() == platforms.len(),
        r->Ok_0.index.manifests.len() == platforms.len(),
        forall|i: int|
            0 <= i < platforms.len() ==> lists_image(
                #[trigger] r->Ok_0.index.manifests[i],
                r->Ok_0.images[i],
                platforms[i],
            ) && r->Ok_0.images[i].layers.len() == 1 && is_synthetic_layer(
                r->Ok_0.images[i].layers[0],
                layer_size as nat,
            ),
{
    let mut images: Vec<Image> = Vec::new();
    let mut manifests: Vec<IndexEntry> = Vec::new();
    let n = platforms.len();
    for i in 0..n
        invariant
            n == platforms.len(),
            images.len() == i,
            manifests.len() == i,
            forall|k: int|
                0 <= k < i ==> lists_image(#[trigger] manifests[k], images[k], platforms[k]),
            forall|k: int|
                0 <= k < i ==> (#[trigger] images[k]).layers.len() == 1 && is_synthetic_layer(
                    images[k].layers[0],
                    layer_size as nat,
                ),
    {
        let platform = platforms[i];
        let config = match platform_config(platform) {
            Ok(c) => c,
            Err(_) => {
                return Err(ImageError::ConfigEncoding);
            },
        };
        let layers = gen_rand_layers(layer_size, 1);
        assert(is_synthetic_layer(layers[0], layer_size as nat));
        let image = assemble_image(layers, config);
        assert(image.layers[0] == layers[0]);
        let entry = index_entry(&image, platform);
        let ghost old_images = images@;
        let ghost old_manifests = manifests@;
        images.push(image);
        manifests.push(entry);
        assert forall|k: int| 0 <= k < i + 1 implies lists_image(
            #[trigger] manifests[k],
            images[k],
            platforms[k],
        ) by {
            if k < i {
                assert(manifests[k] == old_manifests[k]);
                assert(images[k] == old_images[k]);
            }
        }
        assert forall|k: int| 0 <= k < i + 1 implies (#[trigger] images[k]).layers.len() == 1
            && is_synthetic_layer(images[k].layers[0], layer_size as nat) by {
            if k < i {
                assert(images[k] == old_images[k]);
            }
        }
    }
    Ok(SyntheticIndex {
        images,
        index: ImageIndex { schema_version: 2, media_type: oci_index_media_type(), manifests },
    })
}

} // verus!
