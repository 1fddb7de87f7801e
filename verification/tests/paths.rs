use libfmod_demos::paths::SDK_DIR_VARIABLE;
use libfmod_demos::{get_example_bank_path, get_example_banks_dir, get_fmod_sdk_dir};

const UNSET: &str =
    "FMOD_SDK_DIR environment variable not set. Please set it to your FMOD SDK path.";

#[test]
fn sdk_dir_variable_is_named() {
    assert_eq!(SDK_DIR_VARIABLE, "FMOD_SDK_DIR");
}

#[test]
fn sdk_dir_is_the_configured_value() {
    assert_eq!(get_fmod_sdk_dir(Some("/opt/fmod".to_string())), Ok("/opt/fmod".to_string()));
    assert_eq!(get_fmod_sdk_dir(Some(String::new())), Ok(String::new()));
}

#[test]
fn sdk_dir_unset_is_an_error() {
    assert_eq!(get_fmod_sdk_dir(None), Err(UNSET.to_string()));
}

#[test]
fn banks_dir_lies_below_the_sdk_dir() {
    assert_eq!(
        get_example_banks_dir(Some("/opt/fmod".to_string())),
        Ok("/opt/fmod/api/studio/examples/media".to_string())
    );
}

#[test]
fn banks_dir_keeps_a_trailing_slash_of_the_sdk_dir() {
    assert_eq!(
        get_example_banks_dir(Some("/opt/fmod/".to_string())),
        Ok("/opt/fmod//api/studio/examples/media".to_string())
    );
}

#[test]
fn banks_dir_unset_is_an_error() {
    assert_eq!(get_example_banks_dir(None), Err(UNSET.to_string()));
}

#[test]
fn bank_path_joins_dir_and_name() {
    assert_eq!(
        get_example_bank_path(Some("/opt/fmod".to_string()), "Master.bank"),
        Ok("/opt/fmod/api/studio/examples/media/Master.bank".to_string())
    );
}

#[test]
fn bank_path_of_an_empty_name_ends_in_a_slash() {
    assert_eq!(
        get_example_bank_path(Some("sdk".to_string()), ""),
        Ok("sdk/api/studio/examples/media/".to_string())
    );
}

#[test]
fn bank_path_unset_is_an_error() {
    assert_eq!(get_example_bank_path(None, "Master.bank"), Err(UNSET.to_string()));
}

#[test]
fn bank_path_extends_banks_dir() {
    let dir = get_example_banks_dir(Some("C:\\fmod".to_string())).unwrap();
    let path = get_example_bank_path(Some("C:\\fmod".to_string()), "SFX.bank").unwrap();
    assert_eq!(path, format!("{}/{}", dir, "SFX.bank"));
}

#[test]
fn bank_paths_lie_in_the_banks_dir_below_the_sdk_dir() {
    for sdk_dir in ["", "/", "/opt/fmod", "relative/dir", "C:\\fmod studio"] {
        let dir = get_example_banks_dir(Some(sdk_dir.to_string())).unwrap();
        assert!(dir.starts_with(sdk_dir));
        for bank in ["Master.bank", "Master.strings.bank", "", "a/b.bank"] {
            let path = get_example_bank_path(Some(sdk_dir.to_string()), bank).unwrap();
            assert!(path.starts_with(&dir));
            assert!(path.ends_with(bank));
            assert_eq!(path.len(), dir.len() + 1 + bank.len());
        }
    }
}
