use routecord::utils::{Platform, Utils};

#[test]
fn configuration_lies_below_the_home_directory() {
    assert_eq!(
        Utils::get_config_dir_path("/home/user", Platform::Linux),
        "/home/user/.config/fercord"
    );
    assert_eq!(
        Utils::get_config_dir_path("C:\\Users\\user", Platform::Windows),
        "C:\\Users\\user\\fercord"
    );
}

#[test]
fn home_directory_is_taken_as_it_is() {
    assert_eq!(Utils::get_config_dir_path("", Platform::Linux), "/.config/fercord");
    assert_eq!(Utils::get_config_dir_path("/", Platform::Linux), "//.config/fercord");
    assert_eq!(Utils::get_config_dir_path("", Platform::Windows), "\\fercord");
    assert_eq!(Utils::get_config_dir_path("/home/ü", Platform::Linux), "/home/ü/.config/fercord");
}
