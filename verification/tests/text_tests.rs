use eidetic::license::{
    activate_license, check_license_key, check_license_status, license_response_valid,
    LicenseGate, LocalLicense,
};
use eidetic::synth::{context_document, context_ext_allowed, ContextFile};
use eidetic::text::{
    basename, ext_of, path_join, str_contains, str_ends_with, str_eq, str_replace,
    str_starts_with, str_trim, u64_to_string,
};

#[test]
fn string_helpers_behave() {
    assert!(str_eq("abc", "abc"));
    assert!(!str_eq("abc", "abd"));
    assert!(!str_contains("path/vaultfile", "/vault/"));
    assert!(str_contains("/srv/vault/file", "/vault/"));
    assert!(str_ends_with("photo.jpg", ".jpg"));
    assert!(!str_ends_with("jpg", ".jpg"));
    assert!(str_starts_with("http://x", "http"));
    assert!(!str_starts_with("ftp://x", "http"));
    assert_eq!(str_trim("  hi there \n"), "hi there");
    assert_eq!(str_trim(""), "");
}

#[test]
fn replace_rewrites_every_occurrence() {
    assert_eq!(str_replace("photo.jpg", ".jpg", ".png"), "photo.png");
    assert_eq!(str_replace("a.jpg.jpg", ".jpg", ".png"), "a.png.png");
    assert_eq!(str_replace("none", ".jpg", ".png"), "none");
}

#[test]
fn path_helpers_behave() {
    assert_eq!(path_join("", "a.txt"), "a.txt");
    assert_eq!(path_join("a/b", "c"), "a/b/c");
    assert_eq!(basename("a/b/c.txt"), "c.txt");
    assert_eq!(basename("c.txt"), "c.txt");
    assert_eq!(basename("a/"), "");
    assert_eq!(ext_of("c.tar.gz"), "gz");
    assert_eq!(ext_of("noext"), "");
    assert_eq!(ext_of(".gitignore"), "");
    assert_eq!(ext_of("a."), "");
}

#[test]
fn decimal_rendering() {
    assert_eq!(u64_to_string(0), "0");
    assert_eq!(u64_to_string(7), "7");
    assert_eq!(u64_to_string(1024), "1024");
    assert_eq!(u64_to_string(u64::MAX), "18446744073709551615");
}

#[test]
fn context_allow_list() {
    assert!(context_ext_allowed("rs"));
    assert!(context_ext_allowed("yml"));
    assert!(!context_ext_allowed("exe"));
    assert!(!context_ext_allowed(""));
}

#[test]
fn context_document_fences_allowed_files() {
    let files = vec![
        ContextFile { rel_path: "src/main.rs".to_string(), content: "fn main() {}".to_string() },
        ContextFile { rel_path: "bin/tool.exe".to_string(), content: "xxxx".to_string() },
    ];
    let doc = context_document("proj", &files);
    let expected = "# Deep Context for \"proj\"\n\n> Generated by Eidetic. Includes all source files recursively (respecting .gitignore).\n\n## src/main.rs\n```rs\nfn main() {}\n```\n\n";
    assert_eq!(doc, expected);
}

#[test]
fn activation_accepts_product_keys_only() {
    let ok = activate_license("ED-200".to_string()).ok().expect("accepted");
    assert_eq!(ok.key, "ED-200");
    assert_eq!(ok.id, 12345);
    assert!(activate_license("NOPE".to_string()).is_err());
}

#[test]
fn stored_license_is_active_when_key_nonempty() {
    assert!(check_license_status(&LocalLicense { key: "ED-1".to_string(), id: 1 }));
    assert!(!check_license_status(&LocalLicense { key: "".to_string(), id: 1 }));
}

#[test]
fn license_gate_decides_locally() {
    assert_eq!(check_license_key("  \n"), LicenseGate::Invalid);
    assert_eq!(check_license_key(" ED-PRO-77 "), LicenseGate::Pro);
    assert_eq!(check_license_key("OTHER-9"), LicenseGate::Verify);
}

#[test]
fn license_server_reply_parsing() {
    assert!(license_response_valid("{\"valid\":true}"));
    assert!(!license_response_valid("{\"valid\":false}"));
}
