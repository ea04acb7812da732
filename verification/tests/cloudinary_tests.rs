use sha2::{Digest, Sha256};
use warehouse_management_system_backend::cloudinary::{
    check_upload, params_string, prepare_destroy, prepare_upload, sha256_hex, sign, signed_params,
    upload_failed_error, UploadOptions,
};
use warehouse_management_system_backend::config::CloudinaryConfig;
use warehouse_management_system_backend::errors::AppError;

fn cfg() -> CloudinaryConfig {
    CloudinaryConfig { cloud_name: "demo".to_string(), api_key: "key123".to_string(), api_secret: "s3cr3t".to_string() }
}

fn reference_sha256_hex(s: &str) -> String {
    let mut h = Sha256::new();
    h.update(s.as_bytes());
    h.finalize().iter().map(|b| format!("{:02x}", b)).collect()
}

#[test]
fn upload_options() {
    let u = UploadOptions::for_user(42);
    assert_eq!(u.folder, "wms/users");
    assert_eq!(u.public_id, Some("user_42".to_string()));
    assert!(u.optimize);
    assert_eq!(UploadOptions::for_warehouse(-3).public_id, Some("warehouse_-3".to_string()));
    assert_eq!(UploadOptions::for_warehouse(7).folder, "wms/warehouses");
    assert_eq!(UploadOptions::for_product(9).public_id, Some("product_9".to_string()));
    assert_eq!(UploadOptions::for_product(9).folder, "wms/products");
}

#[test]
fn sha256_known_values() {
    assert_eq!(sha256_hex(""), "e3b0c44298fc1c149afbf4c8996fb92427ae41e4649b934ca495991b7852b855");
    assert_eq!(sha256_hex("abc"), "ba7816bf8f01cfea414140de5dae2223b00361a396177a9cb410ff61f20015ad");
    assert_eq!(sha256_hex("gudang Ω"), reference_sha256_hex("gudang Ω"));
}

#[test]
fn upload_checks() {
    assert_eq!(check_upload(10, "photo.JPG", "image/jpeg"), Ok("jpg".to_string()));
    assert_eq!(check_upload(5 * 1024 * 1024, "a.webp", "image/webp"), Ok("webp".to_string()));
    assert_eq!(
        check_upload(5 * 1024 * 1024 + 1, "a.png", "image/png"),
        Err(AppError::Validation("File size 5MB exceeds the 5MB limit".to_string()))
    );
    assert_eq!(
        check_upload(12 * 1024 * 1024, "a.png", "image/gif"),
        Err(AppError::Validation("File size 12MB exceeds the 5MB limit".to_string()))
    );
    assert_eq!(
        check_upload(10, "a.png", "image/gif"),
        Err(AppError::Validation("File type 'image/gif' is not allowed. Allowed types: image/jpeg, image/png, image/webp".to_string()))
    );
    assert_eq!(
        check_upload(10, "archive.tar.gz", "image/png"),
        Err(AppError::Validation("File extension '.gz' is not allowed. Allowed: jpg, jpeg, png, webp".to_string()))
    );
    assert_eq!(
        check_upload(10, "noextension", "image/png"),
        Err(AppError::Validation("File extension '.noextension' is not allowed. Allowed: jpg, jpeg, png, webp".to_string()))
    );
}

#[test]
fn signed_params_are_sorted_by_name() {
    let p = signed_params(&UploadOptions::for_user(1), "1700000000");
    let keys: Vec<&str> = p.iter().map(|(k, _)| k.as_str()).collect();
    assert_eq!(keys, vec!["eager", "folder", "public_id", "timestamp"]);
    let mut sorted = keys.clone();
    sorted.sort();
    assert_eq!(keys, sorted);
    assert_eq!(
        params_string(&p),
        "eager=c_fill,w_800,h_800,q_auto,f_auto&folder=wms/users&public_id=user_1&timestamp=1700000000"
    );
    let plain = UploadOptions { folder: "misc", public_id: None, optimize: false };
    assert_eq!(params_string(&signed_params(&plain, "5")), "folder=misc&timestamp=5");
}

#[test]
fn signature_is_hash_of_params_and_secret() {
    assert_eq!(sign("a=1&b=2", "xyz"), reference_sha256_hex("a=1&b=2xyz"));
    assert_ne!(sign("a=1&b=2", "xyz"), sign("a=1&b=2", "xyw"));
}

#[test]
fn prepared_upload() {
    let f = prepare_upload(&cfg(), 1000, "me.png", "image/png", UploadOptions::for_user(5), 1700000000).unwrap();
    assert_eq!(f.api_key, "key123");
    assert_eq!(f.timestamp, "1700000000");
    assert_eq!(f.folder, "wms/users");
    assert_eq!(f.public_id, Some("user_5".to_string()));
    assert_eq!(f.eager, Some("c_fill,w_800,h_800,q_auto,f_auto".to_string()));
    assert_eq!(f.file_name, "me.png");
    assert_eq!(f.content_type, "image/png");
    assert_eq!(
        f.signature,
        reference_sha256_hex("eager=c_fill,w_800,h_800,q_auto,f_auto&folder=wms/users&public_id=user_5&timestamp=1700000000s3cr3t")
    );
    assert!(matches!(
        prepare_upload(&cfg(), 0, "me.bmp", "image/png", UploadOptions::for_user(5), 1),
        Err(AppError::Validation(_))
    ));
}

#[test]
fn prepared_destroy() {
    let d = prepare_destroy(&cfg(), "wms/users/user_5", 42);
    assert_eq!(d.public_id, "wms/users/user_5");
    assert_eq!(d.api_key, "key123");
    assert_eq!(d.timestamp, "42");
    assert_eq!(d.signature, reference_sha256_hex("public_id=wms/users/user_5&timestamp=42s3cr3t"));
}

#[test]
fn upload_failure_messages() {
    assert_eq!(
        upload_failed_error(Some("Invalid Signature".to_string()), "401 Unauthorized"),
        AppError::Internal("Cloudinary upload failed: Invalid Signature".to_string())
    );
    assert_eq!(
        upload_failed_error(None, "502 Bad Gateway"),
        AppError::Internal("Cloudinary upload failed: HTTP 502 Bad Gateway".to_string())
    );
}
