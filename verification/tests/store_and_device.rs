use openspace_sync::api::{classify_api_status, create_os_api, ApiDisposition};
use openspace_sync::config::{ApiConfig, ApiEnv};
use openspace_sync::device::{
    camera_for_vendor, filter_by_extension, match_camera, matches_extension,
    parse_gphoto2_file_list, DeviceType, VendorType,
};
use openspace_sync::error::AppError;
use openspace_sync::ipc::{IoFailure, IpcError, IpcStatus};
use openspace_sync::store::{
    add_skipped_file, clear_auth_data, clear_skipped_files, clear_user_config, get_oauth_config,
    get_user_config, is_file_skipped, load_skipped_files, save_skipped_files, save_user_config,
    CredentialStore, SkippedFile,
};
use openspace_sync::strutil::{str_contains, str_eq, u64_to_string};
use openspace_sync::upload::FileInfo;

#[test]
fn dedup_cache_round_trip() {
    let mut store = CredentialStore::new();
    assert!(load_skipped_files(&store).is_none());
    assert!(!is_file_skipped(&store, "a.insv", 10, "dev-1"));

    add_skipped_file(&mut store, "a.insv", 10, "dev-1");
    assert!(is_file_skipped(&store, "a.insv", 10, "dev-1"));
    // The whole (filename, size, device) triple is the identity key.
    assert!(!is_file_skipped(&store, "a.insv", 11, "dev-1"));
    assert!(!is_file_skipped(&store, "a.insv", 10, "dev-2"));
    assert!(!is_file_skipped(&store, "b.insv", 10, "dev-1"));

    // Adding the same key again keeps set semantics.
    add_skipped_file(&mut store, "a.insv", 10, "dev-1");
    assert_eq!(load_skipped_files(&store).unwrap().len(), 1);

    add_skipped_file(&mut store, "b.insv", 20, "dev-1");
    assert_eq!(load_skipped_files(&store).unwrap().len(), 2);

    clear_skipped_files(&mut store);
    assert!(load_skipped_files(&store).is_none());
    assert!(!is_file_skipped(&store, "a.insv", 10, "dev-1"));
}

#[test]
fn save_skipped_files_replaces_the_record() {
    let mut store = CredentialStore::new();
    let records = vec![SkippedFile::new("x.insv".to_string(), 5, "dev-1".to_string())];
    save_skipped_files(&mut store, records);
    assert!(is_file_skipped(&store, "x.insv", 5, "dev-1"));
    let loaded = load_skipped_files(&store).unwrap();
    assert_eq!(loaded.len(), 1);
    assert_eq!(loaded[0].filename, "x.insv");
    assert_eq!(loaded[0].size, 5);
    assert_eq!(loaded[0].device_id, "dev-1");
}

#[test]
fn user_and_oauth_records_round_trip() {
    let mut store = CredentialStore::new();
    assert!(get_user_config(&store).is_none());
    assert!(get_oauth_config(&store).is_none());

    save_user_config(&mut store, "token-1".to_string(), "Bearer".to_string());
    let user = get_user_config(&store).unwrap();
    assert_eq!(user.access_token, "token-1");
    assert_eq!(user.token_type, "Bearer");
    assert_eq!(user.api_config.host(), "http://localhost:8080");

    let oauth = openspace_sync::config::OAuthConfig {
        client_id: "client-1".to_string(),
        env: openspace_sync::auth::AuthEnv::Dev,
        scope: openspace_sync::auth::AuthScope::Email,
    };
    openspace_sync::store::save_auth_data(&mut store, &oauth);
    let loaded = get_oauth_config(&store).unwrap();
    assert_eq!(loaded.client_id, "client-1");

    clear_user_config(&mut store);
    assert!(get_user_config(&store).is_none());
    clear_auth_data(&mut store);
    assert!(get_oauth_config(&store).is_none());
}

#[test]
fn api_handle_uses_the_stored_host() {
    let mut store = CredentialStore::new();
    assert!(create_os_api(&store).is_none());
    save_user_config(&mut store, "token-1".to_string(), "Bearer".to_string());
    let api = create_os_api(&store).unwrap();
    assert_eq!(api.api_host, "http://localhost:8080");
    assert_eq!(api.access_token, "token-1");
    assert_eq!(api.token_type, "Bearer");
}

#[test]
fn api_config_resolves_hosts() {
    let explicit = ApiConfig::new(ApiEnv::US, Some("https://example.test".to_string()));
    assert_eq!(explicit.host(), "https://example.test");
    let by_env = ApiConfig::new(ApiEnv::US, None);
    assert_eq!(by_env.host(), "https://openspace.ai");
    assert_eq!(ApiEnv::EU.get_host(), "https://eu.openspace.ai");
    assert_eq!(openspace_sync::config::get_api_host(), "http://localhost:8080");
}

#[test]
fn camera_table_lookup() {
    let insta = camera_for_vendor(1802).unwrap();
    assert!(matches!(insta.vendor, VendorType::Insta));
    assert!(matches!(insta.device, DeviceType::Insta360OneX2));
    assert_eq!(insta.vendor_id, 1802);
    assert_eq!(insta.device.name(), "Insta360 One X2");
    assert_eq!(insta.vendor.name(), "Insta");

    let theta = camera_for_vendor(1482).unwrap();
    assert!(matches!(theta.device, DeviceType::ThetaZ1));
    assert_eq!(theta.device.name(), "RICOH THETA Z1");

    assert!(camera_for_vendor(0).is_none());
    assert!(camera_for_vendor(4660).is_none());
}

#[test]
fn first_supported_device_wins() {
    let ids: Vec<u16> = vec![4660, 1482, 1802];
    let found = match_camera(&ids).unwrap();
    assert!(matches!(found.device, DeviceType::ThetaZ1));
}

#[test]
fn extension_matching_is_ascii_case_insensitive() {
    assert!(matches_extension("DCIM/clip.insv", "insv"));
    assert!(matches_extension("DCIM/clip.INSV", "insv"));
    assert!(matches_extension("clip.InSv", "INSV"));
    assert!(!matches_extension("clip.binsv", "insv"));
    assert!(!matches_extension("clipinsv", "insv"));
    assert!(!matches_extension(".insv", "insv"));
    assert!(!matches_extension("dir/.insv", "insv"));
    assert!(!matches_extension("dir.insv/file", "insv"));
}

#[test]
fn extension_filter_keeps_order() {
    let files = vec![
        FileInfo {
            path: "/v/a.insv".to_string(),
            filename: "a.insv".to_string(),
            size: 1,
            content_type: "video/insv".to_string(),
        },
        FileInfo {
            path: "/v/b.jpg".to_string(),
            filename: "b.jpg".to_string(),
            size: 2,
            content_type: "image/jpeg".to_string(),
        },
        FileInfo {
            path: "/v/c.INSV".to_string(),
            filename: "c.INSV".to_string(),
            size: 3,
            content_type: "video/insv".to_string(),
        },
    ];
    let kept = filter_by_extension(&files, "insv");
    let names: Vec<String> = kept.iter().map(|f| f.filename.clone()).collect();
    assert_eq!(names, vec!["a.insv".to_string(), "c.INSV".to_string()]);
}

#[test]
fn listing_parse_collects_paths_under_folders() {
    let output = "There are 2 files in folder '/store_00010001/DCIM/100RICOH'.\n\
#1     R0010001.JPG               rd  8367 KB image/jpeg\n\
#2     R0010002.JPG               rd  8368 KB image/jpeg\n\
There are 1 files in folder '/store_00010001/DCIM/101RICOH'.\n\
#1     R0010099.JPG               rd  9000 KB image/jpeg\n";
    let files = parse_gphoto2_file_list(output);
    assert_eq!(
        files,
        vec![
            "/store_00010001/DCIM/100RICOH/R0010001.JPG".to_string(),
            "/store_00010001/DCIM/100RICOH/R0010002.JPG".to_string(),
            "/store_00010001/DCIM/101RICOH/R0010099.JPG".to_string(),
        ]
    );
}

#[test]
fn listing_parse_without_a_folder_keeps_bare_names() {
    let output = "#1 clip.insv rd 100 KB\nnoise line\n#2 other.insv\n#\n";
    let files = parse_gphoto2_file_list(output);
    assert_eq!(files, vec!["clip.insv".to_string(), "other.insv".to_string()]);
    assert!(parse_gphoto2_file_list("").is_empty());
    assert!(parse_gphoto2_file_list("no cameras detected").is_empty());
}

#[test]
fn error_statuses_match_the_taxonomy() {
    assert!(matches!(AppError::DeviceCodeExpired.to_ipc_status(), IpcStatus::NotAuthenticated));
    assert!(matches!(AppError::OAuthConfigNotFound.to_ipc_status(), IpcStatus::NotAuthenticated));
    assert!(matches!(AppError::CameraNotFound.to_ipc_status(), IpcStatus::NotFound));
    assert!(matches!(
        AppError::ApiNotInitialized.to_ipc_status(),
        IpcStatus::Unavailable
    ));
    let req = |status| AppError::ApiRequest { status, message: "x".to_string() };
    assert!(matches!(req(401).to_ipc_status(), IpcStatus::NotAuthenticated));
    assert!(matches!(req(403).to_ipc_status(), IpcStatus::NotAuthorized));
    assert!(matches!(req(404).to_ipc_status(), IpcStatus::NotFound));
    assert!(matches!(req(409).to_ipc_status(), IpcStatus::Conflict));
    assert!(matches!(req(418).to_ipc_status(), IpcStatus::ImATeapot));
    assert!(matches!(req(503).to_ipc_status(), IpcStatus::Unavailable));
    assert!(matches!(req(422).to_ipc_status(), IpcStatus::InvalidArgument));
    assert!(matches!(req(500).to_ipc_status(), IpcStatus::InternalError));
    let timeout = AppError::Network { message: "t".to_string(), timeout: true, connect: false };
    assert!(matches!(timeout.to_ipc_status(), IpcStatus::Unavailable));
    let other = AppError::Network { message: "x".to_string(), timeout: false, connect: false };
    assert!(matches!(other.to_ipc_status(), IpcStatus::InternalError));
    assert!(matches!(
        AppError::Io(IoFailure::PermissionDenied).to_ipc_status(),
        IpcStatus::NotAuthorized
    ));
    assert!(matches!(
        AppError::UnsupportedOS("beos".to_string()).to_ipc_status(),
        IpcStatus::InternalError
    ));
}

#[test]
fn ipc_errors_keep_their_status_and_message() {
    let e = IpcError::new(IpcStatus::NotFound, "missing".to_string());
    assert!(matches!(e.status(), IpcStatus::NotFound));
    assert_eq!(e.message(), "missing");
    assert_eq!(IpcStatus::NotAuthenticated.default_message(), "User not logged in");
    assert_eq!(IpcStatus::Success.default_message(), "Ok");
    assert!(matches!(IpcStatus::from_io(IoFailure::NotFound), IpcStatus::NotFound));
    assert!(matches!(
        IpcStatus::from_io(IoFailure::ConnectionReset),
        IpcStatus::Unavailable
    ));
}

#[test]
fn string_helpers() {
    assert!(str_eq("abc", "abc"));
    assert!(!str_eq("abc", "abd"));
    assert!(str_contains("authorization_pending and more", "authorization_pending"));
    assert!(!str_contains("authorization", "authorization_pending"));
    assert!(str_contains("anything", ""));
    assert_eq!(u64_to_string(0), "0");
    assert_eq!(u64_to_string(7), "7");
    assert_eq!(u64_to_string(500), "500");
    assert_eq!(u64_to_string(1234567890), "1234567890");
}

#[test]
fn error_messages_are_exact() {
    assert_eq!(
        AppError::DeviceCodeExpired.message(),
        "Device code expired. Please try again."
    );
    assert_eq!(
        AppError::ApiRequest { status: 404, message: "missing".to_string() }.message(),
        "API request failed: 404 - missing"
    );
    assert_eq!(
        AppError::UnsupportedOS("beos".to_string()).message(),
        "Unsupported OS: beos"
    );
    assert_eq!(
        AppError::CacheRead { file: "user_config.json".to_string(), kind: IoFailure::NotFound }
            .message(),
        "Failed to read cache file 'user_config.json': not found"
    );
    assert_eq!(AppError::Io(IoFailure::Other).message(), "I/O error: I/O error");
}

#[test]
fn ipc_error_from_app_error_derives_both_parts() {
    let e = IpcError::from_app_error(AppError::CameraNotFound);
    assert!(matches!(e.status(), IpcStatus::NotFound));
    assert_eq!(e.message(), "No camera found");
}

#[test]
fn api_status_classification_never_hides_a_401() {
    assert!(matches!(classify_api_status(200), ApiDisposition::Success));
    assert!(matches!(classify_api_status(299), ApiDisposition::Success));
    assert!(matches!(classify_api_status(401), ApiDisposition::NotAuthenticated));
    assert!(matches!(classify_api_status(400), ApiDisposition::Failed));
    assert!(matches!(classify_api_status(500), ApiDisposition::Failed));
}

#[test]
fn platform_scan_stubs_report_unsupported() {
    match openspace_sync::camera_finder::scan_for_camera_fs_linux() {
        Err(AppError::UnsupportedOS(m)) => {
            assert_eq!(m, "Linux camera support not implemented yet")
        }
        _ => panic!("expected an unsupported-OS error"),
    }
    match openspace_sync::camera_finder::scan_for_camera_fs_windows() {
        Err(AppError::UnsupportedOS(m)) => {
            assert_eq!(m, "Windows camera support not implemented yet")
        }
        _ => panic!("expected an unsupported-OS error"),
    }
}
