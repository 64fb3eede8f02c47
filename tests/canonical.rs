use oci_distribution::client::{Config, ImageLayer};
use oci_distribution::manifest::{OciImageManifest, OciManifest, OCI_IMAGE_MEDIA_TYPE};

use oci_tester::artifact::gen_rand_layers;
use oci_tester::image::gen_image;

#[test]
fn manifest_json_is_what_the_client_sends() {
    let image = gen_image(gen_rand_layers(64, 3)).unwrap();
    let layers: Vec<ImageLayer> = image
        .layers
        .iter()
        .map(|l| ImageLayer::new(l.data.clone(), l.media_type.clone(), None))
        .collect();
    let config = Config::new(image.config.data.clone(), image.config.media_type.clone(), None);
    let mut manifest = OciImageManifest::build(&layers, &config, None);
    manifest.media_type = Some(OCI_IMAGE_MEDIA_TYPE.to_string());
    // A `serde_json::Value` keeps object keys sorted, so for ASCII text
    // without control characters its compact form is the canonical one.
    let value = serde_json::to_value(&OciManifest::Image(manifest)).unwrap();
    let body = serde_json::to_string(&value).unwrap();
    assert_eq!(image.manifest.as_ref().unwrap().to_json(), body);
    let registry_digest = ImageLayer::new(body.into_bytes(), String::new(), None).sha256_digest();
    assert_eq!(image.digest, Some(registry_digest));
}
