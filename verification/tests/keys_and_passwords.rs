use rcli::{
    decode_tag, encode_tag, file_reply, key_artifacts, label_record, parse_output_format,
    process_csv, ConvertError, FileRead, OutputFormat, process_genpass, process_text_generate,
    process_text_sign, process_text_verify, verdict_line, Blake3, CharClass, Ed25519Signer,
    GenPassOpts, TextError, TextKeyGenerateOpts, TextSignFormat, TextSignOpts, TextVerifyOpts,
};

const UPPER: &str = "ABCDEFGHJKLMNPQRSTUVWXYZ";
const LOWER: &str = "abcdefghijkmnpqrstuvwxyz";
const NUMBER: &str = "123456789";
const SYMBOL: &str = "!@#$%^&*_";

fn check_password(password: &str, length: u8, upper: bool, lower: bool, number: bool, symbol: bool) {
    assert_eq!(password.chars().count(), length as usize);
    let classes = [(upper, UPPER), (lower, LOWER), (number, NUMBER), (symbol, SYMBOL)];
    for c in password.chars() {
        assert!(classes.iter().any(|(on, set)| *on && set.contains(c)));
    }
    for (on, set) in classes {
        if on {
            assert!(password.chars().any(|c| set.contains(c)));
        }
    }
}

#[test]
fn password_has_length_and_classes() {
    for _ in 0..50 {
        let password = process_genpass(16, true, true, true, true).unwrap();
        check_password(&password, 16, true, true, true, true);
    }
    for _ in 0..50 {
        let password = process_genpass(4, true, true, true, true).unwrap();
        check_password(&password, 4, true, true, true, true);
    }
    for _ in 0..20 {
        let password = process_genpass(9, false, true, false, true).unwrap();
        check_password(&password, 9, false, true, false, true);
        let password = process_genpass(255, true, false, false, false).unwrap();
        check_password(&password, 255, true, false, false, false);
        let password = process_genpass(1, false, false, true, false).unwrap();
        check_password(&password, 1, false, false, true, false);
    }
    assert_eq!(process_genpass(0, false, false, false, false).unwrap(), "");
}

#[test]
fn passwords_differ_and_are_shuffled() {
    let first = process_genpass(32, true, true, true, true).unwrap();
    let second = process_genpass(32, true, true, true, true).unwrap();
    assert_ne!(first, second);
    let mut upper_first = 0;
    for _ in 0..200 {
        let password = process_genpass(8, true, true, true, true).unwrap();
        if UPPER.contains(password.chars().next().unwrap()) {
            upper_first += 1;
        }
    }
    assert!(upper_first < 200);
}

#[test]
fn alphabets() {
    assert_eq!(CharClass::Upper.alphabet(), UPPER);
    assert_eq!(CharClass::Lower.alphabet(), LOWER);
    assert_eq!(CharClass::Number.alphabet(), NUMBER);
    assert_eq!(CharClass::Symbol.alphabet(), SYMBOL);
}

#[test]
fn options_that_cannot_be_met() {
    let none = GenPassOpts { length: 8, uppercase: false, lowercase: false, numbers: false, symbol: false };
    assert!(!none.is_satisfiable());
    assert!(none.generate().is_none());
    let short = GenPassOpts { length: 3, uppercase: true, lowercase: true, numbers: true, symbol: true };
    assert!(!short.is_satisfiable());
    assert!(short.generate().is_none());
    let empty = GenPassOpts { length: 0, uppercase: false, lowercase: false, numbers: false, symbol: false };
    assert!(empty.is_satisfiable());
    assert_eq!(empty.generate().unwrap().unwrap(), "");
    let usual = GenPassOpts { length: 16, uppercase: true, lowercase: true, numbers: true, symbol: true };
    assert!(usual.is_satisfiable());
    let password = usual.generate().unwrap().unwrap();
    check_password(&password, 16, true, true, true, true);
}

#[test]
fn strength_is_a_score() {
    assert!(GenPassOpts::strength("") <= 4);
    assert_eq!(GenPassOpts::strength("password"), 0);
    let strong = GenPassOpts::strength("uH7$kQ2m!Zx9@Lp4^Wc8&Rt5*Nv3_Ey6");
    assert_eq!(strong, 4);
}

#[test]
fn keyed_hash_artifact_is_a_usable_password() {
    for make in [Blake3::generate, || process_text_generate(TextSignFormat::Blake3)] {
        let set = make().unwrap();
        assert_eq!(set.len(), 1);
        assert_eq!(set[0].0, "blake3.txt");
        let key = &set[0].1;
        assert_eq!(key.len(), 32);
        check_password(std::str::from_utf8(key).unwrap(), 32, true, true, true, true);
        let sig = process_text_sign(b"hello", key, TextSignFormat::Blake3).unwrap();
        assert_eq!(process_text_verify(b"hello", key, &sig, TextSignFormat::Blake3), Ok(true));
    }
}

#[test]
fn key_pair_artifacts_belong_together() {
    for make in [Ed25519Signer::generate, || process_text_generate(TextSignFormat::Ed25519)] {
        let set = make().unwrap();
        assert_eq!(set.len(), 2);
        assert_eq!(set[0].0, "ed25519.sk");
        assert_eq!(set[1].0, "ed25519.pk");
        assert_eq!(set[0].1.len(), 32);
        assert_eq!(set[1].1.len(), 32);
        assert_eq!(key_artifacts(&set[0].1, TextSignFormat::Ed25519).unwrap(), set);
        let sig = process_text_sign(b"hello", &set[0].1, TextSignFormat::Ed25519).unwrap();
        assert_eq!(process_text_verify(b"hello", &set[1].1, &sig, TextSignFormat::Ed25519), Ok(true));
    }
}

#[test]
fn successive_key_pairs_are_distinct() {
    let first = process_text_generate(TextSignFormat::Ed25519).unwrap();
    let second = process_text_generate(TextSignFormat::Ed25519).unwrap();
    assert_ne!(first[0].1, second[0].1);
    assert_ne!(first[1].1, second[1].1);
    let first = process_text_generate(TextSignFormat::Blake3).unwrap();
    let second = process_text_generate(TextSignFormat::Blake3).unwrap();
    assert_ne!(first[0].1, second[0].1);
}

#[test]
fn artifacts_of_given_key_material() {
    let secret = [
        0x9d, 0x61, 0xb1, 0x9d, 0xef, 0xfd, 0x5a, 0x60, 0xba, 0x84, 0x4a, 0xf4, 0x92, 0xec, 0x2c,
        0xc4, 0x44, 0x49, 0xc5, 0x69, 0x7b, 0x32, 0x69, 0x19, 0x70, 0x3b, 0xac, 0x03, 0x1c, 0xae,
        0x7f, 0x60u8,
    ];
    let public = [
        0xd7, 0x5a, 0x98, 0x01, 0x82, 0xb1, 0x0a, 0xb7, 0xd5, 0x4b, 0xfe, 0xd3, 0xc9, 0x64, 0x07,
        0x3a, 0x0e, 0xe1, 0x72, 0xf3, 0xda, 0xa6, 0x23, 0x25, 0xaf, 0x02, 0x1a, 0x68, 0xf7, 0x07,
        0x51, 0x1au8,
    ];
    let set = key_artifacts(&secret, TextSignFormat::Ed25519).unwrap();
    assert_eq!(set, vec![("ed25519.sk", secret.to_vec()), ("ed25519.pk", public.to_vec())]);
    assert_eq!(Ed25519Signer::new(secret).verifying_key(), public);

    let set = key_artifacts(&secret, TextSignFormat::Blake3).unwrap();
    assert_eq!(set, vec![("blake3.txt", secret.to_vec())]);

    assert_eq!(key_artifacts(&secret[..31], TextSignFormat::Blake3), Err(TextError::InvalidKeyLength));
    assert_eq!(key_artifacts(&secret[..31], TextSignFormat::Ed25519), Err(TextError::InvalidKeyLength));
    assert_eq!(key_artifacts(&[0u8; 33], TextSignFormat::Ed25519), Err(TextError::MalformedKey));
    assert_eq!(key_artifacts(&[5u8; 33], TextSignFormat::Blake3).unwrap()[0].1, vec![5u8; 33]);
}

#[test]
fn tags_as_text() {
    assert_eq!(encode_tag(b"hello"), "aGVsbG8");
    assert_eq!(encode_tag(&[0xfb, 0xff]), "-_8");
    assert_eq!(encode_tag(b""), "");
    assert_eq!(decode_tag("aGVsbG8"), Ok(b"hello".to_vec()));
    assert_eq!(decode_tag("-_8"), Ok(vec![0xfb, 0xff]));
    assert_eq!(decode_tag("aGVsbG8="), Err(TextError::MalformedSignature));
    assert_eq!(decode_tag("+/8"), Err(TextError::MalformedSignature));
    assert_eq!(decode_tag("not base64!"), Err(TextError::MalformedSignature));
    let tag: Vec<u8> = (0..=255u8).collect();
    assert_eq!(decode_tag(&encode_tag(&tag)), Ok(tag));
}

#[test]
fn sign_and_verify_commands() {
    let key = b"uH7$kQ2m!Zx9@Lp4^Wc8&Rt5*Nv3_Ey6";
    for format in [TextSignFormat::Blake3, TextSignFormat::Ed25519] {
        let sign = TextSignOpts { input: "-".to_string(), key: "key".to_string(), format };
        let text = sign.sign(b"hello", key).unwrap();
        assert_eq!(decode_tag(&text), process_text_sign(b"hello", key, format));
        assert_eq!(text, encode_tag(&process_text_sign(b"hello", key, format).unwrap()));

        let verify_key = match format {
            TextSignFormat::Blake3 => key.to_vec(),
            TextSignFormat::Ed25519 => Ed25519Signer::try_new(key).unwrap().verifying_key().to_vec(),
        };
        let verify = TextVerifyOpts {
            input: "-".to_string(),
            key: "key".to_string(),
            format,
            sig: text.clone(),
        };
        assert_eq!(verify.verify(b"hello", &verify_key), Ok(true));
        assert_eq!(verify.verify(b"hellp", &verify_key), Ok(false));
        assert_eq!(verify.verify(b"hello", &verify_key[..8]), Err(TextError::InvalidKeyLength));

        let garbled = TextVerifyOpts { sig: "***".to_string(), ..verify };
        assert_eq!(garbled.verify(b"hello", &verify_key), Err(TextError::MalformedSignature));
        assert_eq!(garbled.verify(b"hello", &verify_key[..8]), Err(TextError::MalformedSignature));

        assert_eq!(sign.sign(b"hello", &key[..8]), Err(TextError::InvalidKeyLength));
    }
    assert_eq!(verdict_line(true), "Verify success");
    assert_eq!(verdict_line(false), "Verify failed");
}

#[test]
fn generate_command() {
    let opts = TextKeyGenerateOpts { format: TextSignFormat::Ed25519, output: ".".to_string() };
    let set = opts.generate().unwrap();
    assert_eq!(set.iter().map(|(name, _)| *name).collect::<Vec<_>>(), ["ed25519.sk", "ed25519.pk"]);
    let opts = TextKeyGenerateOpts { format: TextSignFormat::Blake3, output: ".".to_string() };
    let set = opts.generate().unwrap();
    assert_eq!(set.iter().map(|(name, _)| *name).collect::<Vec<_>>(), ["blake3.txt"]);
}

fn texts(items: &[&str]) -> Vec<String> {
    items.iter().map(|s| s.to_string()).collect()
}

#[test]
fn records_are_labelled_by_headers() {
    let headers = texts(&["Name", "Position", "Kit Number"]);
    let row = label_record(&headers, &texts(&["Ann", "Keeper", "1"]));
    assert_eq!(
        row,
        vec![
            ("Name".to_string(), "Ann".to_string()),
            ("Position".to_string(), "Keeper".to_string()),
            ("Kit Number".to_string(), "1".to_string()),
        ]
    );
    assert_eq!(label_record(&headers, &texts(&["Ann"])), vec![("Name".to_string(), "Ann".to_string())]);
    assert_eq!(label_record(&headers, &texts(&["a", "b", "c", "d"])).len(), 3);
    assert!(label_record(&headers, &texts(&[])).is_empty());
    assert!(label_record(&texts(&[]), &texts(&["a"])).is_empty());
}

#[test]
fn table_as_json() {
    let headers = texts(&["Name", "Kit"]);
    let records = vec![texts(&["Ann", "1"]), texts(&["Bob", "22"])];
    let text = process_csv(&headers, &records, OutputFormat::Json).unwrap();
    let expected = [
        "[",
        "  {",
        "    \"Kit\": \"1\",",
        "    \"Name\": \"Ann\"",
        "  },",
        "  {",
        "    \"Kit\": \"22\",",
        "    \"Name\": \"Bob\"",
        "  }",
        "]",
    ]
    .join("\n");
    assert_eq!(text, expected);
    assert_eq!(process_csv(&headers, &vec![], OutputFormat::Json).unwrap(), "[]");
}

#[test]
fn table_as_yaml() {
    let headers = texts(&["Name", "Kit"]);
    let records = vec![texts(&["Ann", "x"]), texts(&["Bob"])];
    let text = process_csv(&headers, &records, OutputFormat::Yaml).unwrap();
    assert_eq!(text, "- Kit: x\n  Name: Ann\n- Name: Bob\n");
}

#[test]
fn output_format_tokens() {
    assert_eq!(parse_output_format("json"), Ok(OutputFormat::Json));
    assert_eq!(parse_output_format("yaml"), Ok(OutputFormat::Yaml));
    assert_eq!(parse_output_format("toml"), Err(ConvertError::UnknownFormat));
    assert_eq!(parse_output_format(""), Err(ConvertError::UnknownFormat));
    assert_eq!(OutputFormat::Json.name(), "json");
    assert_eq!(OutputFormat::Yaml.name(), "yaml");
}

#[test]
fn file_server_replies() {
    assert_eq!(
        file_reply("\"./nothing\"".to_string(), FileRead::Missing),
        (404, "\"./nothing\" not found".to_string())
    );
    assert_eq!(
        file_reply("\"./Cargo.toml\"".to_string(), FileRead::Content("[package]".to_string())),
        (200, "[package]".to_string())
    );
    assert_eq!(
        file_reply("\"./dir\"".to_string(), FileRead::Failed("Is a directory".to_string())),
        (500, "Is a directory".to_string())
    );
}
