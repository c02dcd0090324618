use whisphub::project::{
    config_file_text, config_path, slug_from_dir_name, slugify, suggest_slug_from_dir, ProjectError,
    CONFIG_HEADER,
};
use whisphub::paths::PathStyle;
use whisphub::slug::slug_of_lowercase;
use whisphub::text::{is_whitespace, trim};

fn slug_is_well_formed(s: &str) -> bool {
    !s.starts_with('-')
        && !s.ends_with('-')
        && !s.contains("--")
        && s.chars().all(|c| c == '-' || c.is_alphanumeric())
}

#[test]
fn slugify_lowercases_and_joins_words_with_dashes() {
    assert_eq!(slugify("Hello World"), "hello-world");
}

#[test]
fn slugify_collapses_runs_and_trims_dashes() {
    assert_eq!(slugify("  --My  Cool__Project!! "), "my-cool-project");
    assert_eq!(slugify("a--b"), "a-b");
    assert_eq!(slugify("C++ & Rust"), "c-rust");
    assert_eq!(slugify("123 abc"), "123-abc");
}

#[test]
fn slugify_of_nothing_alphanumeric_is_empty() {
    assert_eq!(slugify(""), "");
    assert_eq!(slugify("---"), "");
    assert_eq!(slugify("!@#  $%^"), "");
}

#[test]
fn slugify_keeps_unicode_letters_and_digits() {
    assert_eq!(slugify("Ünïcödé Straße"), "ünïcödé-straße");
    assert_eq!(slugify("ΟΔΥΣΣΕΥΣ"), "οδυσσευς");
    assert_eq!(slugify("日本語 プロジェクト"), "日本語-プロジェクト");
}

#[test]
fn slugify_results_are_well_formed() {
    for input in ["My Project", "--x--", "a  b\tc", "A.B.C", "___", "Déjà Vu 2", "x"] {
        let s = slugify(input);
        assert!(slug_is_well_formed(&s), "{:?} -> {:?}", input, s);
        let kept: String = s.chars().filter(|c| *c != '-').collect();
        let expected: String = input.to_lowercase().chars().filter(|c| c.is_alphanumeric()).collect();
        assert_eq!(kept, expected);
    }
}

#[test]
fn suggest_slug_uses_final_directory_name() {
    assert_eq!(suggest_slug_from_dir("/home/u/My Project").unwrap(), "my-project");
    assert_eq!(suggest_slug_from_dir("/home/u/My Project/").unwrap(), "my-project");
    assert_eq!(suggest_slug_from_dir("relative/Dir_Name").unwrap(), "dir-name");
    assert_eq!(suggest_slug_from_dir("Just A Name").unwrap(), "just-a-name");
    assert_eq!(suggest_slug_from_dir("../up/Web.App").unwrap(), "web-app");
}

#[test]
fn suggest_slug_fails_without_a_name() {
    assert_eq!(suggest_slug_from_dir("/"), Err(ProjectError::NoDirectoryName));
    assert_eq!(suggest_slug_from_dir("foo/.."), Err(ProjectError::NoDirectoryName));
    assert_eq!(suggest_slug_from_dir(""), Err(ProjectError::NoDirectoryName));
    assert_eq!(suggest_slug_from_dir("."), Err(ProjectError::NoDirectoryName));
    assert_eq!(suggest_slug_from_dir("./"), Err(ProjectError::NoDirectoryName));
    assert_eq!(suggest_slug_from_dir("a/b/.."), Err(ProjectError::NoDirectoryName));
}

#[test]
fn suggest_slug_ignores_trailing_separators_and_dots() {
    assert_eq!(suggest_slug_from_dir("/usr/Bin/").unwrap(), "bin");
    assert_eq!(suggest_slug_from_dir("foo/./").unwrap(), "foo");
    assert_eq!(suggest_slug_from_dir("/srv/Site//.").unwrap(), "site");
    assert_eq!(suggest_slug_from_dir("./My App").unwrap(), "my-app");
}

#[test]
fn slug_of_lowercase_text() {
    assert_eq!(slug_of_lowercase("hello world"), "hello-world");
    assert_eq!(slug_of_lowercase("--a--b--"), "a-b");
    assert_eq!(slug_of_lowercase(""), "");
    assert_eq!(slug_of_lowercase("a_b"), slug_of_lowercase("a b"));
    assert_eq!(slug_of_lowercase("a__b"), slug_of_lowercase("a_b"));
    assert_eq!(slug_of_lowercase("a.b"), "a-b");
}

#[test]
fn slug_of_a_slug_is_itself() {
    for input in ["hello world", "x", "a-b-c", "déjà vu 2", "..."] {
        let once = slug_of_lowercase(input);
        assert_eq!(slug_of_lowercase(&once), once);
        assert_eq!(slugify(&slugify(input)), slugify(input));
    }
}

#[test]
fn ascii_letter_case_does_not_change_the_slug() {
    for input in ["Hello World", "My_App v2", "a.B-c"] {
        assert_eq!(slugify(&input.to_ascii_uppercase()), slugify(input));
        assert_eq!(slugify(&input.to_ascii_lowercase()), slugify(input));
    }
    assert_eq!(slugify("HELLO WORLD"), "hello-world");
}

#[test]
fn ascii_separators_are_interchangeable() {
    for sep in [" ", "_", ".", "/", "-", "__", " - "] {
        assert_eq!(slugify(&format!("Web{}App", sep)), "web-app", "{:?}", sep);
    }
}

#[test]
fn ascii_characters_are_kept_exactly_when_alphanumeric() {
    for code in 0u8..128 {
        let c = code as char;
        let one = c.to_string();
        let expected = if c.is_ascii_alphanumeric() { one.clone() } else { String::new() };
        assert_eq!(slug_of_lowercase(&one), expected, "{:?}", c);
        let lowered = if c.is_ascii_alphanumeric() { c.to_ascii_lowercase().to_string() } else { String::new() };
        assert_eq!(slugify(&one), lowered, "{:?}", c);
    }
}

#[test]
fn white_space_matches_the_unicode_property() {
    for code in 0u32..=0x10FFFF {
        if let Some(c) = char::from_u32(code) {
            assert_eq!(is_whitespace(c), c.is_whitespace(), "U+{:04X}", code);
        }
    }
}

#[test]
fn slug_from_dir_name_cases() {
    assert_eq!(slug_from_dir_name(Some("Web App".to_string())).unwrap(), "web-app");
    assert_eq!(slug_from_dir_name(None), Err(ProjectError::NoDirectoryName));
}

#[test]
fn config_path_is_inside_the_project_dir() {
    assert_eq!(config_path(PathStyle::Unix, "/tmp/proj"), "/tmp/proj/.whisphub.toml");
    assert_eq!(config_path(PathStyle::Unix, "/tmp/proj/"), "/tmp/proj/.whisphub.toml");
    assert_eq!(config_path(PathStyle::Unix, ""), ".whisphub.toml");
    assert_eq!(config_path(PathStyle::Unix, "C:\\proj\\"), "C:\\proj\\/.whisphub.toml");
    assert_eq!(config_path(PathStyle::Windows, "C:\\proj"), "C:\\proj\\.whisphub.toml");
    assert_eq!(config_path(PathStyle::Windows, "C:\\proj\\"), "C:\\proj\\.whisphub.toml");
    assert_eq!(config_path(PathStyle::Windows, ""), ".whisphub.toml");
    for dir in ["/tmp/proj", "/tmp/proj/", "", "rel/dir", "a\\b"] {
        let std_joined = std::path::Path::new(dir).join(".whisphub.toml");
        assert_eq!(config_path(PathStyle::Unix, dir), std_joined.to_str().unwrap(), "{:?}", dir);
    }
}

#[test]
fn config_file_text_puts_the_header_first() {
    let text = config_file_text("slug = \"a\"\n");
    assert_eq!(
        text,
        "# WhispHub project config \u{2014} do not edit manually.\n# Created by `whisphub init`, used by `whisphub push`.\n\nslug = \"a\"\n"
    );
    assert!(text.starts_with(CONFIG_HEADER));
}

#[test]
fn trim_removes_unicode_white_space_at_both_ends() {
    assert_eq!(trim("  hi there \t\n"), "hi there");
    assert_eq!(trim("\u{3000}\u{a0}x\u{2028}"), "x");
    assert_eq!(trim("   "), "");
    assert_eq!(trim(""), "");
    assert_eq!(trim(&trim(" a b ")), trim(" a b "));
}
