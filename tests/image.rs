use oci_tester::artifact::{archive_layer, gen_rand_layers, gen_tar_file, Layer};
use oci_tester::image::{assemble_image, gen_image, layer_digest, ConfigBlob, Descriptor, Manifest};

const EMPTY_SHA256: &str =
    "sha256:e3b0c44298fc1c149afbf4c8996fb92427ae41e4649b934ca495991b7852b855";

fn config() -> ConfigBlob {
    ConfigBlob {
        data: b"{}".to_vec(),
        media_type: "application/vnd.oci.image.config.v1+json".to_string(),
    }
}

#[test]
fn digest_of_empty_layer() {
    let layer = Layer { data: Vec::new(), media_type: "x".to_string() };
    assert_eq!(layer_digest(&layer), EMPTY_SHA256);
}

#[test]
fn manifest_lists_each_layer_by_digest() {
    let layers = gen_rand_layers(256, 4);
    let image = gen_image(layers).unwrap();
    let manifest = image.manifest.as_ref().unwrap();
    assert_eq!(manifest.schema_version, 2);
    assert_eq!(
        manifest.media_type.as_deref(),
        Some("application/vnd.oci.image.manifest.v1+json")
    );
    assert_eq!(manifest.layers.len(), image.layers.len());
    for (d, l) in manifest.layers.iter().zip(image.layers.iter()) {
        assert_eq!(d.digest, layer_digest(l));
        assert_eq!(d.size, l.data.len() as i64);
        assert_eq!(d.media_type, l.media_type);
    }
    assert_eq!(manifest.config.media_type, "application/vnd.oci.image.config.v1+json");
    assert_eq!(manifest.config.size, image.config.data.len() as i64);
}

#[test]
fn default_config_names_linux_amd64() {
    let image = gen_image(Vec::new()).unwrap();
    let text = String::from_utf8(image.config.data.clone()).unwrap();
    assert!(text.contains("\"os\":\"linux\""));
    assert!(text.contains("\"architecture\":\"amd64\""));
}

#[test]
fn image_digest_is_stable() {
    let image = gen_image(gen_rand_layers(128, 2)).unwrap();
    let first = image.compute_digest().unwrap();
    let second = image.compute_digest().unwrap();
    assert_eq!(first, second);
    assert_eq!(Some(first), image.digest);
}

#[test]
fn image_digest_changes_with_a_layer_byte() {
    let archive = gen_tar_file(64);
    let mut changed = archive.clone();
    changed[600] ^= 1;
    let a = assemble_image(vec![archive_layer(archive)], config());
    let b = assemble_image(vec![archive_layer(changed)], config());
    assert_ne!(a.digest, b.digest);
}

#[test]
fn image_without_manifest_has_no_digest() {
    let mut image = assemble_image(Vec::new(), config());
    image.manifest = None;
    assert_eq!(image.compute_digest(), None);
}

#[test]
fn manifest_json_exact() {
    let m = Manifest {
        schema_version: 2,
        media_type: Some("application/vnd.oci.image.manifest.v1+json".to_string()),
        config: Descriptor { media_type: "c".to_string(), digest: "d0".to_string(), size: 2 },
        layers: vec![
            Descriptor { media_type: "l".to_string(), digest: "d1".to_string(), size: 10 },
            Descriptor { media_type: "q\"\\\n".to_string(), digest: "d2".to_string(), size: -3 },
        ],
    };
    assert_eq!(
        m.to_json(),
        "{\"config\":{\"digest\":\"d0\",\"mediaType\":\"c\",\"size\":2},\
         \"layers\":[{\"digest\":\"d1\",\"mediaType\":\"l\",\"size\":10},\
         {\"digest\":\"d2\",\"mediaType\":\"q\\\"\\\\\n\",\"size\":-3}],\
         \"mediaType\":\"application/vnd.oci.image.manifest.v1+json\",\"schemaVersion\":2}"
    );
}

#[test]
fn manifest_json_parses_as_json() {
    let image = gen_image(gen_rand_layers(32, 2)).unwrap();
    let json = image.manifest.as_ref().unwrap().to_json();
    let v: serde_json::Value = serde_json::from_str(&json).unwrap();
    assert_eq!(v["schemaVersion"], 2);
    assert_eq!(v["layers"].as_array().unwrap().len(), 2);
}

#[test]
fn generate_assemble_three_layers() {
    let layers = gen_rand_layers(1024, 3);
    let image = gen_image(layers).unwrap();
    assert_eq!(image.manifest.as_ref().unwrap().layers.len(), 3);
    let digest = image.digest.clone().unwrap();
    assert!(!digest.is_empty());
    assert!(digest.starts_with("sha256:"));
    assert_eq!(image.compute_digest(), Some(digest.clone()));
    assert_eq!(image.compute_digest(), Some(digest));
}

#[test]
fn equal_layers_give_equal_digests() {
    let layers = gen_rand_layers(512, 2);
    let a = gen_image(layers.clone()).unwrap();
    let b = gen_image(layers).unwrap();
    assert!(a.digest.is_some());
    assert_eq!(a.digest, b.digest);
}
