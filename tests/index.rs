use oci_tester::image::Platform;
use oci_tester::index::gen_image_index;

#[test]
fn index_lists_one_manifest_per_platform() {
    let platforms = vec![Platform::LinuxAmd64, Platform::LinuxArm64];
    let s = gen_image_index(&platforms, 256).unwrap();
    assert_eq!(s.index.schema_version, 2);
    assert_eq!(s.index.media_type, "application/vnd.oci.image.index.v1+json");
    assert_eq!(s.images.len(), 2);
    assert_eq!(s.index.manifests.len(), 2);
    for ((image, entry), platform) in
        s.images.iter().zip(s.index.manifests.iter()).zip(platforms.iter())
    {
        assert_eq!(entry.platform, *platform);
        assert_eq!(Some(entry.descriptor.digest.clone()), image.digest);
        let json = image.manifest.as_ref().unwrap().to_json();
        assert_eq!(entry.descriptor.size, json.len() as i64);
        assert_eq!(entry.descriptor.media_type, "application/vnd.oci.image.manifest.v1+json");
        assert_eq!(image.layers.len(), 1);
    }
    let arm = String::from_utf8(s.images[1].config.data.clone()).unwrap();
    assert!(arm.contains("\"architecture\":\"arm64\""));
    assert_ne!(s.index.manifests[0].descriptor.digest, s.index.manifests[1].descriptor.digest);
}

#[test]
fn index_of_no_platform_is_empty() {
    let s = gen_image_index(&Vec::new(), 16).unwrap();
    assert!(s.images.is_empty());
    assert!(s.index.manifests.is_empty());
}
