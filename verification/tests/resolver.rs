use jukebox::error::Error;
use jukebox::resolver::get_title;

#[test]
fn get_title_trims_the_output() {
    assert_eq!(get_title("Some Title\n"), Ok("Some Title".to_string()));
    assert_eq!(get_title("  \t Spaced  out \r\n"), Ok("Spaced  out".to_string()));
    assert_eq!(get_title("bare"), Ok("bare".to_string()));
}

#[test]
fn get_title_fails_on_empty_output() {
    assert_eq!(get_title(""), Err(Error::ResolutionFailed));
}

#[test]
fn get_title_of_blank_output_is_empty() {
    assert_eq!(get_title("\n"), Ok(String::new()));
    assert_eq!(get_title("   "), Ok(String::new()));
}
