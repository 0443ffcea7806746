use nh::FlakeRef;
use std::path::Path;

#[test]
fn flake_ref_reads_back_the_text_it_was_made_from() {
    for text in ["", ".", "/etc/nixos", "github:owner/repo#host", "path with spaces", "émile/flocon"] {
        let reference = FlakeRef::from(text);
        assert_eq!(reference.as_str(), text);
        assert_eq!(reference.to_string(), text);
        let as_text: &str = reference.as_ref();
        assert_eq!(as_text, text);
        assert_eq!(*reference, text.to_owned());
        assert_eq!(reference.clone().into_string(), text);
    }
}

#[test]
fn flake_ref_reads_back_as_the_same_path() {
    let reference = FlakeRef::from("/home/alice/flake");
    let path = Path::new(reference.as_str());
    assert_eq!(path, Path::new("/home/alice/flake"));
    assert_eq!(path.as_os_str().as_encoded_bytes(), "/home/alice/flake".as_bytes());
}

#[test]
fn flake_ref_made_from_a_string_holds_it() {
    let reference = FlakeRef::new(String::from("nixpkgs"));
    assert_eq!(reference.as_str(), "nixpkgs");
}

#[test]
fn flake_ref_default_is_empty() {
    assert_eq!(FlakeRef::default().as_str(), "");
}

#[test]
fn flake_refs_are_equal_when_their_texts_are() {
    assert_eq!(FlakeRef::from("a"), FlakeRef::from("a"));
    assert_ne!(FlakeRef::from("a"), FlakeRef::from("b"));
    assert_ne!(FlakeRef::from("a"), FlakeRef::from("A"));
}
