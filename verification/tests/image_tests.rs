use api_temple::errors::{AppError, HttpStatus};
use api_temple::idphoto::{
    check_service_status, is_allowed_field, plan_field, prepare_saved_image, saved_file_name,
    saved_image_from_decoded, FieldPlan, IdPhotoForm, IdPhotoResult, ServiceImages, NO_INPUT_IMAGE,
};
use api_temple::image::{
    check_image_content_type, image_extension, image_file_name, new_upload_id, plan_image_upload,
    NO_FILE_UPLOADED, UPLOAD_BODY_LIMIT,
};

fn is_uuid(s: &str) -> bool {
    s.len() == 36
        && s.chars().enumerate().all(|(i, c)| {
            if [8, 13, 18, 23].contains(&i) {
                c == '-'
            } else {
                c.is_ascii_digit() || ('a'..='f').contains(&c)
            }
        })
}

#[test]
fn image_extension_cases() {
    assert_eq!(image_extension("image/jpeg"), "jpeg");
    assert_eq!(image_extension("image/svg+xml"), "svg+xml");
    assert_eq!(image_extension("image/"), "");
    assert_eq!(image_extension("image/a/b"), "a");
    assert_eq!(image_extension("image"), "png");
    assert_eq!(image_extension(""), "png");
}

#[test]
fn content_type_checks() {
    assert_eq!(check_image_content_type(Some("image/png")), Ok(()));
    assert_eq!(
        check_image_content_type(None),
        Err(AppError::BadRequest("Missing content type".to_string()))
    );
    assert_eq!(
        check_image_content_type(Some("text/plain")),
        Err(AppError::BadRequest("Invalid file type: text/plain".to_string()))
    );
    assert_eq!(
        check_image_content_type(Some("Image/png")),
        Err(AppError::BadRequest("Invalid file type: Image/png".to_string()))
    );
}

#[test]
fn upload_plan_cases() {
    assert_eq!(plan_image_upload(None), Err(AppError::BadRequest(NO_FILE_UPLOADED.to_string())));
    assert_eq!(
        plan_image_upload(Some(None)),
        Err(AppError::BadRequest("Missing content type".to_string()))
    );
    assert_eq!(
        plan_image_upload(Some(Some("application/pdf"))),
        Err(AppError::BadRequest("Invalid file type: application/pdf".to_string()))
    );
    let name = plan_image_upload(Some(Some("image/webp"))).unwrap();
    assert!(name.ends_with(".webp"));
    assert!(is_uuid(&name[..36]));
    assert_eq!(name.len(), 41);
}

#[test]
fn upload_ids_are_fresh_uuids() {
    let a = new_upload_id();
    let b = new_upload_id();
    assert!(is_uuid(&a) && is_uuid(&b));
    assert_ne!(a, b);
    assert_eq!(image_file_name("id", "gif"), "id.gif");
    assert_eq!(UPLOAD_BODY_LIMIT, 12288);
}

#[test]
fn allowed_field_names() {
    for name in [
        "input_image", "mode_option", "size_list_option", "color_option", "render_option",
        "image_kb_options", "custom_color_R", "custom_color_G", "custom_color_B",
        "custom_size_height", "custom_size_width", "custom_image_kb", "language",
        "matting_model_option", "watermark_option", "watermark_text", "watermark_text_color",
        "watermark_text_size", "watermark_text_opacity", "watermark_text_angle",
        "watermark_text_space", "face_detect_option", "head_measure_ratio", "top_distance_max",
        "top_distance_min",
    ] {
        assert!(is_allowed_field(name), "{}", name);
    }
    assert!(!is_allowed_field(""));
    assert!(!is_allowed_field("custom_color_r"));
    assert!(!is_allowed_field("input_image "));
    assert!(!is_allowed_field("password"));
}

#[test]
fn plan_field_cases() {
    assert_eq!(plan_field(Some("input_image"), Some("image/jpeg")), Ok(FieldPlan::InputImage));
    assert_eq!(plan_field(Some("language"), None), Ok(FieldPlan::Text));
    assert_eq!(plan_field(Some("language"), Some("text/plain")), Ok(FieldPlan::Text));
    assert_eq!(
        plan_field(Some("input_image"), None),
        Err(AppError::BadRequest("Missing content type".to_string()))
    );
    assert_eq!(
        plan_field(Some("input_image"), Some("video/mp4")),
        Err(AppError::BadRequest("Invalid file type: video/mp4".to_string()))
    );
    assert_eq!(plan_field(Some("evil"), None), Err(AppError::BadRequest("Invalid field: evil".to_string())));
    assert_eq!(plan_field(None, Some("image/png")), Err(AppError::BadRequest("Invalid field: ".to_string())));
}

#[test]
fn form_gathers_fields_in_order() {
    let mut form = IdPhotoForm::new();
    assert_eq!(form.add_text("language".to_string(), Ok("zh".to_string())), Ok(()));
    assert_eq!(form.add_image(Ok(vec![1, 2, 3])), Ok(()));
    assert_eq!(form.add_text("color_option".to_string(), Ok("white".to_string())), Ok(()));
    assert_eq!(form.add_image(Ok(vec![9])), Ok(()));
    let (image, texts) = form.finish().unwrap();
    assert_eq!(image, vec![9]);
    assert_eq!(
        texts,
        vec![
            ("language".to_string(), "zh".to_string()),
            ("color_option".to_string(), "white".to_string())
        ]
    );
}

#[test]
fn form_errors() {
    let mut form = IdPhotoForm::new();
    assert_eq!(
        form.add_text("language".to_string(), Err("bad utf-8".to_string())),
        Err(AppError::BadRequest("bad utf-8".to_string()))
    );
    assert_eq!(
        form.add_image(Err("stream closed".to_string())),
        Err(AppError::InternalServerError("stream closed".to_string()))
    );
    assert_eq!(form.finish().unwrap_err(), AppError::BadRequest(NO_INPUT_IMAGE.to_string()));
}

#[test]
fn service_status_check() {
    assert_eq!(check_service_status(true), Ok(()));
    let e = check_service_status(false).unwrap_err();
    assert_eq!(e, AppError::InternalServerError("Failed to process image".to_string()));
    assert_eq!(e.status(), HttpStatus::InternalServerError);
    assert_eq!(e.message(), "Failed to process image");
}

#[test]
fn saved_image_names_and_decoding() {
    assert_eq!(saved_file_name("abc", "hd_png"), "abc_hd_png.png");
    let img = prepare_saved_image("aGVsbG8=", "standard", "abc").unwrap();
    assert_eq!(img.bytes, b"hello".to_vec());
    assert_eq!(img.file_name, "abc_standard.png");
    let err = prepare_saved_image("standard_image", "standard", "abc").unwrap_err();
    assert_eq!(err.status(), HttpStatus::InternalServerError);
    let img = saved_image_from_decoded(Ok(vec![7]), "u", "layout").unwrap();
    assert_eq!((img.file_name.as_str(), img.bytes), ("u_layout.png", vec![7]));
    assert_eq!(
        saved_image_from_decoded(Err("Invalid byte".to_string()), "u", "hd").unwrap_err(),
        AppError::InternalServerError("Invalid byte".to_string())
    );
}

#[test]
fn images_to_save_with_fallbacks() {
    let images = ServiceImages {
        standard_image: Some("QQ==".to_string()),
        hd_image: None,
        standard_png: Some("Qg==".to_string()),
        hd_png: None,
        layout_image: None,
    };
    let s = |a: &str, b: &str| (a.to_string(), b.to_string());
    assert_eq!(
        images.images_to_save(),
        vec![s("QQ==", "standard"), s("hd_image", "hd"), s("Qg==", "standard_png"), s("hd_png", "hd_png")]
    );
    let with_layout = ServiceImages { layout_image: Some("TA==".to_string()), ..images };
    assert_eq!(with_layout.images_to_save().last().unwrap(), &s("TA==", "layout"));
    assert_eq!(with_layout.images_to_save().len(), 5);
}

#[test]
fn idphoto_result_names_and_passthrough() {
    let images = ServiceImages {
        standard_image: Some("QQ==".to_string()),
        hd_image: Some("QQ==".to_string()),
        standard_png: None,
        hd_png: Some("QQ==".to_string()),
        layout_image: None,
    };
    let r = IdPhotoResult::new(&images, "u1", serde_json::Value::from("done"), serde_json::Value::Null);
    assert_eq!(r.standard_image, "u1_standard.png");
    assert_eq!(r.hd_image, "u1_hd.png");
    assert_eq!(r.standard_png, "u1_standard_png.png");
    assert_eq!(r.hd_png, "u1_hd_png.png");
    assert_eq!(r.layout_image, None);
    assert_eq!(r.notification, serde_json::Value::from("done"));
    assert_eq!(r.download_path, serde_json::Value::Null);
    for (data, suffix) in images.images_to_save() {
        if let Ok(img) = prepare_saved_image(&data, &suffix, "u1") {
            assert!([&r.standard_image, &r.hd_image, &r.hd_png].contains(&&img.file_name));
        }
    }
    let with_layout = ServiceImages { layout_image: Some("TA==".to_string()), ..images };
    let r = IdPhotoResult::new(&with_layout, "u1", serde_json::Value::Null, serde_json::Value::from("/d"));
    assert_eq!(r.layout_image.as_deref(), Some("u1_layout.png"));
    assert_eq!(r.download_path, serde_json::Value::from("/d"));
}
