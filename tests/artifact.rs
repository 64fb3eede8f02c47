use std::io::Read;

use oci_tester::artifact::{
    archive_layer, compress_layer, decompress_layer, gen_file_data, gen_file_name, gen_file_path,
    gen_gzip_tar_image_layer, gen_rand_layers, gen_tar_file, gen_tar_image_layer, Layer,
};

const TAR: &str = "application/vnd.oci.image.layer.v1.tar";
const GZIP: &str = "application/vnd.oci.image.layer.v1.tar+gzip";

fn single_entry(archive: &[u8]) -> (String, Vec<u8>) {
    let mut ar = tar::Archive::new(archive);
    let mut entries: Vec<(String, Vec<u8>)> = Vec::new();
    for e in ar.entries().unwrap() {
        let mut e = e.unwrap();
        let path = e.path().unwrap().to_string_lossy().to_string();
        let mut data = Vec::new();
        e.read_to_end(&mut data).unwrap();
        entries.push((path, data));
    }
    assert_eq!(entries.len(), 1);
    entries.pop().unwrap()
}

#[test]
fn file_name_is_alphanumeric() {
    let name = gen_file_name(10);
    assert_eq!(name.len(), 10);
    assert!(name.chars().all(|c| c.is_ascii_alphanumeric()));
}

#[test]
fn file_name_empty() {
    assert_eq!(gen_file_name(0), "");
}

#[test]
fn file_path_has_three_segments() {
    let path = gen_file_path(3);
    let parts: Vec<&str> = path.split('/').collect();
    assert_eq!(parts.len(), 3);
    assert!(parts.iter().all(|p| p.len() == 10 && p.chars().all(|c| c.is_ascii_alphanumeric())));
}

#[test]
fn file_path_empty() {
    assert_eq!(gen_file_path(0), "");
}

#[test]
fn file_data_has_requested_size() {
    assert_eq!(gen_file_data(4096).len(), 4096);
    assert!(gen_file_data(0).is_empty());
}

#[test]
fn tar_file_holds_one_entry() {
    let archive = gen_tar_file(1024);
    let (path, data) = single_entry(&archive);
    assert_eq!(data.len(), 1024);
    let parts: Vec<&str> = path.split('/').collect();
    assert_eq!(parts.len(), 4);
    assert!(parts.iter().all(|p| p.len() == 10));
}

#[test]
fn tar_file_of_nothing() {
    let (_, data) = single_entry(&gen_tar_file(0));
    assert!(data.is_empty());
}

#[test]
fn plain_layer_holds_archive() {
    let layer = gen_tar_image_layer(512);
    assert_eq!(layer.media_type, TAR);
    let (_, data) = single_entry(&layer.data);
    assert_eq!(data.len(), 512);
}

#[test]
fn compressed_layer_round_trip() {
    let archive = gen_tar_file(2048);
    let layer = compress_layer(&archive);
    assert_eq!(layer.media_type, GZIP);
    assert_ne!(layer.data, archive);
    assert_eq!(decompress_layer(&layer), Some(archive));
}

#[test]
fn generated_gzip_layer_decompresses_to_archive() {
    let layer = gen_gzip_tar_image_layer(1000);
    assert_eq!(layer.media_type, GZIP);
    let archive = decompress_layer(&layer).unwrap();
    let (_, data) = single_entry(&archive);
    assert_eq!(data.len(), 1000);
}

#[test]
fn uncompressed_layer_decompresses_to_itself() {
    let archive = gen_tar_file(10);
    let layer = archive_layer(archive.clone());
    assert_eq!(layer.media_type, TAR);
    assert_eq!(decompress_layer(&layer), Some(archive));
}

#[test]
fn corrupt_gzip_layer_does_not_decompress() {
    let layer = Layer { data: vec![1, 2, 3], media_type: GZIP.to_string() };
    assert_eq!(decompress_layer(&layer), None);
}

#[test]
fn random_layers_count_and_kinds() {
    let layers = gen_rand_layers(1024, 3);
    assert_eq!(layers.len(), 3);
    for layer in &layers {
        assert!(layer.media_type == TAR || layer.media_type == GZIP);
        let archive = decompress_layer(layer).unwrap();
        assert_eq!(single_entry(&archive).1.len(), 1024);
    }
}

#[test]
fn random_layers_none() {
    assert!(gen_rand_layers(1024, 0).is_empty());
}
