use cctr::{process_line, Cli, Mode};

#[test]
fn can_translate_single_letters() {
    let line = "coding challenge".to_string();

    let args = Cli {
        string1: "c".to_string(),
        string2: Some("C".to_string()),
        ..Default::default()
    };

    let result = process_line(line, &args, &Mode::Translate);

    assert!(result.is_ok());
    assert_eq!(format!("{}\n", result.unwrap()), "Coding Challenge\n");
}

#[test]
fn can_translate_letter_to_number() {
    let line = "coding challenge".to_string();

    let args = Cli {
        string1: "c".to_string(),
        string2: Some("3".to_string()),
        ..Default::default()
    };

    let result = process_line(line, &args, &Mode::Translate);

    assert!(result.is_ok());
    assert_eq!(format!("{}\n", result.unwrap()), "3oding 3hallenge\n");
}

#[test]
fn can_translate_empty_line() {
    let line = "".to_string();

    let args = Cli {
        string1: "c".to_string(),
        string2: Some("C".to_string()),
        ..Default::default()
    };

    let result = process_line(line, &args, &Mode::Translate);

    assert!(result.is_ok());
    assert_eq!(format!("{}\n", result.unwrap()), "\n");
}

#[test]
fn can_translate_many_letters() {
    let line = "coding challenge".to_string();

    let args = Cli {
        string1: "cod".to_string(),
        string2: Some("COD".to_string()),
        ..Default::default()
    };

    let result = process_line(line, &args, &Mode::Translate);

    assert!(result.is_ok());
    assert_eq!(format!("{}\n", result.unwrap()), "CODing Challenge\n");
}

#[test]
fn string1_can_be_longer_than_string2() {
    let line = "coding challenge".to_string();

    let args = Cli {
        string1: "cod".to_string(),
        string2: Some("C".to_string()),
        ..Default::default()
    };

    let result = process_line(line, &args, &Mode::Translate);

    assert!(result.is_ok());
    assert_eq!(format!("{}\n", result.unwrap()), "CCCing Challenge\n");
}

#[test]
fn string2_can_be_longer_than_string1() {
    let line = "coding challenge".to_string();

    let args = Cli {
        string1: "c".to_string(),
        string2: Some("COD".to_string()),
        ..Default::default()
    };

    let result = process_line(line, &args, &Mode::Translate);

    assert!(result.is_ok());
    assert_eq!(format!("{}\n", result.unwrap()), "Coding Challenge\n");
}

#[test]
fn can_translate_special_characters() {
    let line = "{coding challenge}".to_string();

    let args = Cli {
        string1: "{}".to_string(),
        string2: Some("[]".to_string()),
        ..Default::default()
    };

    let result = process_line(line, &args, &Mode::Translate);

    assert!(result.is_ok());
    assert_eq!(format!("{}\n", result.unwrap()), "[coding challenge]\n");
}

#[test]
fn can_translate_lower_to_upper_class() {
    let line = "coding challenge".to_string();

    let args = Cli {
        string1: "[:lower:]".to_string(),
        string2: Some("[:upper:]".to_string()),
        ..Default::default()
    };

    let result = process_line(line, &args, &Mode::Translate);

    assert!(result.is_ok());
    assert_eq!(format!("{}\n", result.unwrap()), "CODING CHALLENGE\n");
}

#[test]
fn can_translate_upper_to_lower_class() {
    let line = "CODING CHALLENGE".to_string();

    let args = Cli {
        string1: "[:upper:]".to_string(),
        string2: Some("[:lower:]".to_string()),
        ..Default::default()
    };

    let result = process_line(line, &args, &Mode::Translate);

    assert!(result.is_ok());
    assert_eq!(format!("{}\n", result.unwrap()), "coding challenge\n");
}

#[test]
fn can_translate_space_class() {
    let line = "coding challenge".to_string();

    let args = Cli {
        string1: "[:space:]".to_string(),
        string2: Some("_".to_string()),
        ..Default::default()
    };

    let result = process_line(line, &args, &Mode::Translate);

    assert!(result.is_ok());
    assert_eq!(format!("{}\n", result.unwrap()), "coding_challenge\n");
}

#[test]
fn can_translate_blank_class() {
    let line = "coding challenge".to_string();

    let args = Cli {
        string1: "[:blank:]".to_string(),
        string2: Some("_".to_string()),
        ..Default::default()
    };

    let result = process_line(line, &args, &Mode::Translate);

    assert!(result.is_ok());
    assert_eq!(format!("{}\n", result.unwrap()), "coding_challenge\n");
}

#[test]
fn can_translate_alphanumeric_class() {
    let line = "123_challenge".to_string();

    let args = Cli {
        string1: "[:alnum:]".to_string(),
        string2: Some("a".to_string()),
        ..Default::default()
    };

    let result = process_line(line, &args, &Mode::Translate);

    assert!(result.is_ok());
    assert_eq!(format!("{}\n", result.unwrap()), "aaa_aaaaaaaaa\n");
}

#[test]
fn can_translate_alphabetic_class() {
    let line = "123_challenge".to_string();

    let args = Cli {
        string1: "[:alpha:]".to_string(),
        string2: Some("a".to_string()),
        ..Default::default()
    };

    let result = process_line(line, &args, &Mode::Translate);

    assert!(result.is_ok());
    assert_eq!(format!("{}\n", result.unwrap()), "123_aaaaaaaaa\n");
}

#[test]
fn can_translate_control_class() {
    let line = "123\tchallenge".to_string();

    let args = Cli {
        string1: "[:cntrl:]".to_string(),
        string2: Some(" ".to_string()),
        ..Default::default()
    };

    let result = process_line(line, &args, &Mode::Translate);

    assert!(result.is_ok());
    assert_eq!(format!("{}\n", result.unwrap()), "123 challenge\n");
}

#[test]
fn can_translate_digit_class() {
    let line = "123 challenge".to_string();

    let args = Cli {
        string1: "[:digit:]".to_string(),
        string2: Some("a".to_string()),
        ..Default::default()
    };

    let result = process_line(line, &args, &Mode::Translate);

    assert!(result.is_ok());
    assert_eq!(format!("{}\n", result.unwrap()), "aaa challenge\n");
}

#[test]
fn can_translate_alphanumeric_to_alphabetic() {
    let line = "coding challenge".to_string();

    let args = Cli {
        string1: "[:alnum:]".to_string(),
        string2: Some("[:alpha:]".to_string()),
        ..Default::default()
    };

    let result = process_line(line, &args, &Mode::Translate);

    assert!(result.is_ok());
    assert_eq!(format!("{}\n", result.unwrap()), "mynsxq mrkvvoxqo\n");
}

#[test]
fn can_translate_alphanumeric_to_blank() {
    let line = "coding challenge".to_string();

    let args = Cli {
        string1: "[:alnum:]".to_string(),
        string2: Some("[:blank:]".to_string()),
        ..Default::default()
    };

    let result = process_line(line, &args, &Mode::Translate);

    assert!(result.is_ok());
    assert_eq!(format!("{}\n", result.unwrap()), "                \n");
}

#[test]
fn can_translate_alphanumeric_to_control_character() {
    let line = "coding challenge".to_string();

    let args = Cli {
        string1: "[:alnum:]".to_string(),
        string2: Some("[:cntrl:]".to_string()),
        ..Default::default()
    };

    let result = process_line(line, &args, &Mode::Translate);

    assert!(result.is_ok());
    assert_eq!(format!("{}\n", result.unwrap()), "                \n");
}

#[test]
fn can_translate_alphanumeric_to_digit() {
    let line = "1oding challenge".to_string();

    let args = Cli {
        string1: "[:alnum:]".to_string(),
        string2: Some("[:digit:]".to_string()),
        ..Default::default()
    };

    let result = process_line(line, &args, &Mode::Translate);

    assert!(result.is_ok());
    assert_eq!(format!("{}\n", result.unwrap()), "199999 999999999\n");
}

#[test]
fn can_translate_alphanumeric_to_lower() {
    let line = "Coding challenge".to_string();

    let args = Cli {
        string1: "[:alnum:]".to_string(),
        string2: Some("[:lower:]".to_string()),
        ..Default::default()
    };

    let result = process_line(line, &args, &Mode::Translate);

    assert!(result.is_ok());
    assert_eq!(format!("{}\n", result.unwrap()), "coding challenge\n");
}

#[test]
fn can_translate_alphanumeric_to_space() {
    let line = "coding challenge".to_string();

    let args = Cli {
        string1: "[:alnum:]".to_string(),
        string2: Some("[:space:]".to_string()),
        ..Default::default()
    };

    let result = process_line(line, &args, &Mode::Translate);

    assert!(result.is_ok());
    assert_eq!(format!("{}\n", result.unwrap()), "                \n");
}

#[test]
fn can_translate_alphanumeric_to_upper() {
    let line = "Coding challenge".to_string();

    let args = Cli {
        string1: "[:alnum:]".to_string(),
        string2: Some("[:upper:]".to_string()),
        ..Default::default()
    };

    let result = process_line(line, &args, &Mode::Translate);

    assert!(result.is_ok());
    assert_eq!(format!("{}\n", result.unwrap()), "CODING CHALLENGE\n");
}

#[test]
fn can_translate_digits_to_chars() {
    let line = "01234 challenge".to_string();

    let args = Cli {
        string1: "[:digit:]".to_string(),
        string2: Some("a".to_string()),
        ..Default::default()
    };

    let result = process_line(line, &args, &Mode::Translate);

    assert!(result.is_ok());
    assert_eq!(format!("{}\n", result.unwrap()), "aaaaa challenge\n");
}

#[test]
fn can_translate_digits_to_control_chars() {
    let line = "01234 challenge".to_string();

    let args = Cli {
        string1: "[:digit:]".to_string(),
        string2: Some("[:cntrl:]".to_string()),
        ..Default::default()
    };

    let result = process_line(line, &args, &Mode::Translate);

    assert!(result.is_ok());
    assert_eq!(format!("{}\n", result.unwrap()), "      challenge\n");
}

#[test]
fn can_translate_digits_to_lowercase_chars() {
    let line = "01234 challenge".to_string();

    let args = Cli {
        string1: "[:digit:]".to_string(),
        string2: Some("[:lower:]".to_string()),
        ..Default::default()
    };

    let result = process_line(line, &args, &Mode::Translate);

    assert!(result.is_ok());
    assert_eq!(format!("{}\n", result.unwrap()), "abcde challenge\n");
}

#[test]
fn can_translate_digits_to_uppercase_chars() {
    let line = "01234 challenge".to_string();

    let args = Cli {
        string1: "[:digit:]".to_string(),
        string2: Some("[:upper:]".to_string()),
        ..Default::default()
    };

    let result = process_line(line, &args, &Mode::Translate);

    assert!(result.is_ok());
    assert_eq!(format!("{}\n", result.unwrap()), "ABCDE challenge\n");
}

#[test]
fn can_translate_single_letters_across_multiple_lines() {
    let line1 = "coding challenge".to_string();
    let line2 = "abcabcabc".to_string();
    let line3 = "come as you are".to_string();

    let args = Cli {
        string1: "c".to_string(),
        string2: Some("C".to_string()),
        ..Default::default()
    };

    let result = process_line(line1, &args, &Mode::Translate);
    assert!(result.is_ok());
    assert_eq!(format!("{}\n", result.unwrap()), "Coding Challenge\n");

    let result = process_line(line2, &args, &Mode::Translate);
    assert!(result.is_ok());
    assert_eq!(format!("{}\n", result.unwrap()), "abCabCabC\n");

    let result = process_line(line3, &args, &Mode::Translate);
    assert!(result.is_ok());
    assert_eq!(format!("{}\n", result.unwrap()), "Come as you are\n");
}

#[test]
fn string1_can_be_longer_than_string2_with_two_lines() {
    let line1 = "coding challenge".to_string();
    let line2 = "coding challenge".to_string();

    let args = Cli {
        string1: "cod".to_string(),
        string2: Some("C".to_string()),
        ..Default::default()
    };

    let result = process_line(line1, &args, &Mode::Translate);
    assert!(result.is_ok());
    assert_eq!(format!("{}\n", result.unwrap()), "CCCing Challenge\n");

    let result = process_line(line2, &args, &Mode::Translate);
    assert!(result.is_ok());
    assert_eq!(format!("{}\n", result.unwrap()), "CCCing Challenge\n");
}
