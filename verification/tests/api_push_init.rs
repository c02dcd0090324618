use std::io::Read;
use whisphub::api::{
    auth_init_url, auth_poll_url, base_or_default, check_create_status, check_init_status, check_me_status,
    check_poll_status, check_upload_status, is_success, me_url, project_page_url, projects_url, refusal_message,
    server_message, zip_upload_url, ApiError, ErrorDetail, ErrorEnvelope, ProjectSummary,
};
use whisphub::archive::{build_zip, ArchiveFile};
use whisphub::init::{check_overwrite, clean_slug, clean_title, project_config_from, tagline_from_input, InitError};
use whisphub::push::{
    archive_file_name, check_push, effective_slug, is_excluded_file, is_ignored_dir, plural_suffix, should_descend,
    should_upload, size_unit, sum_sizes, zip_entry_name, PushError, PushFile, SizeUnit, MAX_PUSH_SIZE_BYTES,
};

fn files(sizes: &[u64]) -> Vec<PushFile> {
    sizes.iter().enumerate().map(|(i, s)| PushFile { path: format!("f{}", i), size: *s }).collect()
}

#[test]
fn base_address_defaults_to_whisphub_dev() {
    assert_eq!(base_or_default(None), "https://whisphub.dev");
    assert_eq!(base_or_default(Some("http://localhost:8080".to_string())), "http://localhost:8080");
}

#[test]
fn endpoint_addresses() {
    let b = "https://whisphub.dev";
    assert_eq!(auth_init_url(b), "https://whisphub.dev/api/cli/auth/init");
    assert_eq!(auth_poll_url(b), "https://whisphub.dev/api/cli/auth/poll");
    assert_eq!(me_url(b), "https://whisphub.dev/api/auth/me");
    assert_eq!(projects_url(b), "https://whisphub.dev/api/projects");
    assert_eq!(zip_upload_url(b, "p-42"), "https://whisphub.dev/api/projects/p-42/files/zip");
    assert_eq!(project_page_url(b, "alice", "my-app"), "https://whisphub.dev/alice/my-app");
}

#[test]
fn success_statuses_are_2xx() {
    assert!(!is_success(199));
    assert!(is_success(200));
    assert!(is_success(204));
    assert!(is_success(299));
    assert!(!is_success(300));
    assert!(!is_success(404));
    assert!(!is_success(500));
}

#[test]
fn refusal_message_prefers_the_server_message() {
    assert_eq!(refusal_message(Some("slug taken".to_string()), "raw body"), "slug taken");
    assert_eq!(refusal_message(None, "raw body"), "raw body");
}

#[test]
fn server_message_reads_the_error_envelope() {
    let full = ErrorEnvelope { error: Some(ErrorDetail { message: Some("slug taken".to_string()) }) };
    assert_eq!(server_message(Some(full)), Some("slug taken".to_string()));
    assert_eq!(server_message(Some(ErrorEnvelope { error: Some(ErrorDetail { message: None }) })), None);
    assert_eq!(server_message(Some(ErrorEnvelope { error: None })), None);
    assert_eq!(server_message(None), None);
}

#[test]
fn init_and_me_status_checks() {
    assert!(check_init_status(200).is_ok());
    assert!(matches!(check_init_status(503), Err(ApiError::InitFailed { status: 503 })));
    assert!(check_me_status(200).is_ok());
    assert!(matches!(check_me_status(401), Err(ApiError::AuthCheckFailed { status: 401 })));
}

#[test]
fn poll_status_check_falls_back_to_unknown_error() {
    assert!(check_poll_status(200, None).is_ok());
    match check_poll_status(400, None) {
        Err(ApiError::PollFailed { message, status }) => {
            assert_eq!(message, "unknown error");
            assert_eq!(status, 400);
        }
        other => panic!("unexpected {:?}", other),
    }
    match check_poll_status(410, Some("gone".to_string())) {
        Err(ApiError::PollFailed { message, status }) => {
            assert_eq!(message, "gone");
            assert_eq!(status, 410);
        }
        other => panic!("unexpected {:?}", other),
    }
}

#[test]
fn create_and_upload_status_checks_fall_back_to_the_body() {
    assert!(check_create_status(201, None, "{}").is_ok());
    match check_create_status(409, None, "conflict!") {
        Err(ApiError::CreateProjectFailed { message }) => assert_eq!(message, "conflict!"),
        other => panic!("unexpected {:?}", other),
    }
    match check_create_status(409, Some("slug already used".to_string()), "{...}") {
        Err(ApiError::CreateProjectFailed { message }) => assert_eq!(message, "slug already used"),
        other => panic!("unexpected {:?}", other),
    }
    assert!(check_upload_status(200, None, "").is_ok());
    match check_upload_status(413, None, "too big") {
        Err(ApiError::UploadFailed { message, status }) => {
            assert_eq!(message, "too big");
            assert_eq!(status, 413);
        }
        other => panic!("unexpected {:?}", other),
    }
}

#[test]
fn ignored_directories() {
    for d in ["node_modules", "target", "dist", "build", ".git", ".svn", "__pycache__", ".venv", "venv", ".next", ".nuxt", ".cache", ".idea", ".vscode"] {
        assert!(is_ignored_dir(d), "{}", d);
        assert!(!should_descend(false, true, d));
        assert!(should_descend(false, false, d));
        assert!(should_descend(true, true, d));
    }
    for d in ["src", "Target", "node_modules2", "docs", ""] {
        assert!(!is_ignored_dir(d), "{}", d);
        assert!(should_descend(false, true, d));
    }
}

#[test]
fn excluded_files_follow_the_documented_rules() {
    for f in [".DS_Store", "Thumbs.db", ".env", ".env.local", ".whisphub.toml", ".prettierrc", ".hidden"] {
        assert!(is_excluded_file(f), "{}", f);
        assert!(!should_upload(true, f));
    }
    for f in [".gitignore", ".env.example", "main.rs", "README.md", "env", ""] {
        assert!(!is_excluded_file(f), "{}", f);
    }
    assert!(should_upload(true, "main.rs"));
    assert!(!should_upload(false, "main.rs"));
}

#[test]
fn nothing_to_push() {
    assert_eq!(check_push(&Vec::new()), Err(PushError::NothingToPush));
}

#[test]
fn push_limit_is_inclusive() {
    assert_eq!(MAX_PUSH_SIZE_BYTES, 104_857_600);
    assert_eq!(check_push(&files(&[100, 23])), Ok(123));
    assert_eq!(check_push(&files(&[MAX_PUSH_SIZE_BYTES - 1, 1])), Ok(MAX_PUSH_SIZE_BYTES));
    assert_eq!(
        check_push(&files(&[MAX_PUSH_SIZE_BYTES, 1])),
        Err(PushError::TooLarge { total: MAX_PUSH_SIZE_BYTES + 1 })
    );
    assert_eq!(check_push(&files(&[0, 0])), Ok(0));
}

#[test]
fn sizes_that_overflow_are_reported() {
    assert_eq!(sum_sizes(&files(&[1, 2, 3])), Some(6));
    assert_eq!(sum_sizes(&files(&[])), Some(0));
    assert_eq!(sum_sizes(&files(&[u64::MAX, 0])), Some(u64::MAX));
    assert_eq!(sum_sizes(&files(&[u64::MAX, 1])), None);
}

#[test]
fn size_units() {
    assert_eq!(size_unit(0), SizeUnit::Bytes);
    assert_eq!(size_unit(1023), SizeUnit::Bytes);
    assert_eq!(size_unit(1024), SizeUnit::KiloBytes);
    assert_eq!(size_unit(1024 * 1024 - 1), SizeUnit::KiloBytes);
    assert_eq!(size_unit(1024 * 1024), SizeUnit::MegaBytes);
    assert_eq!(size_unit(u64::MAX), SizeUnit::MegaBytes);
}

#[test]
fn zip_entry_names_use_forward_slashes() {
    assert_eq!(zip_entry_name("src\\main.rs"), "src/main.rs");
    assert_eq!(zip_entry_name("a/b\\c"), "a/b/c");
    assert_eq!(zip_entry_name("plain.txt"), "plain.txt");
}

#[test]
fn push_names() {
    assert_eq!(effective_slug("cfg-slug", None), "cfg-slug");
    assert_eq!(effective_slug("cfg-slug", Some("other".to_string())), "other");
    assert_eq!(archive_file_name("my-app"), "my-app.zip");
    assert_eq!(plural_suffix(1), "");
    assert_eq!(plural_suffix(0), "s");
    assert_eq!(plural_suffix(4), "s");
}

#[test]
fn built_archive_holds_the_files_in_order() {
    let input = vec![
        ArchiveFile { path: "src\\main.rs".to_string(), contents: b"fn main() {}\n".to_vec() },
        ArchiveFile { path: "README.md".to_string(), contents: b"# hi\n".to_vec() },
        ArchiveFile { path: "empty.txt".to_string(), contents: Vec::new() },
    ];
    let bytes = build_zip(&input).unwrap();
    let mut archive = zip::ZipArchive::new(std::io::Cursor::new(bytes)).unwrap();
    assert_eq!(archive.len(), 3);
    let expected = [("src/main.rs", "fn main() {}\n"), ("README.md", "# hi\n"), ("empty.txt", "")];
    for (i, (name, contents)) in expected.iter().enumerate() {
        let mut f = archive.by_index(i).unwrap();
        assert_eq!(f.name(), *name);
        assert_eq!(f.unix_mode().map(|m| m & 0o777), Some(0o644));
        assert_eq!(f.compression(), zip::CompressionMethod::Deflated);
        let mut s = String::new();
        f.read_to_string(&mut s).unwrap();
        assert_eq!(s, *contents);
    }
}

#[test]
fn empty_archive_is_valid() {
    let bytes = build_zip(&Vec::new()).unwrap();
    let archive = zip::ZipArchive::new(std::io::Cursor::new(bytes)).unwrap();
    assert_eq!(archive.len(), 0);
}

#[test]
fn backslash_and_slash_names_collide() {
    let input = vec![
        ArchiveFile { path: "a\\b.txt".to_string(), contents: b"1".to_vec() },
        ArchiveFile { path: "a/b.txt".to_string(), contents: b"2".to_vec() },
    ];
    assert!(build_zip(&input).is_err());
}

#[test]
fn duplicate_entry_names_are_refused() {
    let input = vec![
        ArchiveFile { path: "a.txt".to_string(), contents: b"1".to_vec() },
        ArchiveFile { path: "a.txt".to_string(), contents: b"2".to_vec() },
    ];
    assert!(build_zip(&input).is_err());
}

#[test]
fn overwrite_needs_confirmation() {
    assert!(check_overwrite(false, false).is_ok());
    assert!(check_overwrite(false, true).is_ok());
    assert!(check_overwrite(true, true).is_ok());
    assert_eq!(check_overwrite(true, false), Err(InitError::Cancelled));
}

#[test]
fn titles_and_slugs_are_trimmed_and_required() {
    assert_eq!(clean_title("  My App \n").unwrap(), "My App");
    assert_eq!(clean_title(" \t "), Err(InitError::EmptyTitle));
    assert_eq!(clean_slug(" my-app ").unwrap(), "my-app");
    assert_eq!(clean_slug(""), Err(InitError::EmptySlug));
}

#[test]
fn blank_taglines_are_dropped() {
    assert_eq!(tagline_from_input("   ".to_string()), None);
    assert_eq!(tagline_from_input(String::new()), None);
    assert_eq!(tagline_from_input(" Fast and fun ".to_string()), Some(" Fast and fun ".to_string()));
}

#[test]
fn project_config_comes_from_the_summary() {
    let s = ProjectSummary {
        id: "p1".to_string(),
        slug: "my-app".to_string(),
        title: "My App".to_string(),
        author_username: "alice".to_string(),
    };
    let c = project_config_from(&s);
    assert_eq!(c.project_id, "p1");
    assert_eq!(c.username, "alice");
    assert_eq!(c.slug, "my-app");
}
