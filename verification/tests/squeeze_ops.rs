use cctr::{process_line, Cli, Mode};

#[test]
fn can_squeeze_single_characters() {
    let line = "Coding challenge".to_string();

    let args = Cli {
        string1: "l".to_string(),
        ..Default::default()
    };

    let result = process_line(line, &args, &Mode::Compress);

    assert!(result.is_ok());
    assert_eq!(format!("{}\n", result.unwrap()), "Coding chalenge\n");
}

#[test]
fn can_squeeze_multiple_characters() {
    let line = "Codding challenggge".to_string();

    let args = Cli {
        string1: "ldg".to_string(),
        ..Default::default()
    };

    let result = process_line(line, &args, &Mode::Compress);

    assert!(result.is_ok());
    assert_eq!(format!("{}\n", result.unwrap()), "Coding chalenge\n");
}

#[test]
fn can_squeeze_upper_class() {
    let line = "CCCCoding challenge".to_string();

    let args = Cli {
        string1: "[:upper:]".to_string(),
        ..Default::default()
    };

    let result = process_line(line, &args, &Mode::Compress);

    assert!(result.is_ok());
    assert_eq!(format!("{}\n", result.unwrap()), "Coding challenge\n");
}

#[test]
fn can_squeeze_lower_class() {
    let line = "Codding challenggge".to_string();

    let args = Cli {
        string1: "[:lower:]".to_string(),
        ..Default::default()
    };

    let result = process_line(line, &args, &Mode::Compress);

    assert!(result.is_ok());
    assert_eq!(format!("{}\n", result.unwrap()), "Coding chalenge\n");
}

#[test]
fn can_squeeze_alphabetic_class() {
    let line = "Codding challenggge".to_string();

    let args = Cli {
        string1: "[:alpha:]".to_string(),
        ..Default::default()
    };

    let result = process_line(line, &args, &Mode::Compress);

    assert!(result.is_ok());
    assert_eq!(format!("{}\n", result.unwrap()), "Coding chalenge\n");
}

#[test]
fn can_squeeze_alphanumeric_class() {
    let line = "11123455 challenge".to_string();

    let args = Cli {
        string1: "[:alnum:]".to_string(),
        ..Default::default()
    };

    let result = process_line(line, &args, &Mode::Compress);

    assert!(result.is_ok());
    assert_eq!(format!("{}\n", result.unwrap()), "12345 chalenge\n");
}

#[test]
fn can_squeeze_digit_class() {
    let line = "11123455 challenge".to_string();

    let args = Cli {
        string1: "[:digit:]".to_string(),
        ..Default::default()
    };

    let result = process_line(line, &args, &Mode::Compress);

    assert!(result.is_ok());
    assert_eq!(format!("{}\n", result.unwrap()), "12345 challenge\n");
}

#[test]
fn can_squeeze_blank_class() {
    let line = "a b  challenge".to_string();

    let args = Cli {
        string1: "[:blank:]".to_string(),
        ..Default::default()
    };

    let result = process_line(line, &args, &Mode::Compress);

    assert!(result.is_ok());
    assert_eq!(format!("{}\n", result.unwrap()), "a b challenge\n");
}

#[test]
fn can_squeeze_control_class() {
    let line = "Coding\t\t\tchallenge".to_string();

    let args = Cli {
        string1: "[:blank:]".to_string(),
        ..Default::default()
    };

    let result = process_line(line, &args, &Mode::Compress);

    assert!(result.is_ok());
    assert_eq!(format!("{}\n", result.unwrap()), "Coding\tchallenge\n");
}
