use elucidator::error::{InternalError, ParsingFailure};
use elucidator::parsing::{
    get_dtype, get_identifier, get_memberspec, get_metadataspec, get_sizing, get_typespec, get_word,
    DtypeParserOutput, IdentifierParserOutput, MemberSpecParserOutput, MetadataSpecParserOutput,
    SizingParserOutput, TypeSpecParserOutput, WordParserOutput,
};
use elucidator::token::{DtypeToken, IdentifierToken, SizingToken, TokenClone, TokenData};
use rand::random;

fn lowercase_ascii_chars() -> Vec<char> {
    (u8::MIN..u8::MAX).map(|x| x as char).filter(|x| x.is_ascii_lowercase()).collect()
}

fn get_whitespace_chars() -> Vec<char> {
    (u8::MIN..=u8::MAX).map(|x| x as char).filter(|x| x.is_whitespace()).collect()
}

fn random_lowercase_ascii_char() -> char {
    lowercase_ascii_chars()[random::<usize>() % lowercase_ascii_chars().len()]
}

fn random_word() -> String {
    let id_len = (random::<u8>() % 9) + 1;
    (0..id_len).map(|_| random_lowercase_ascii_char()).collect()
}

fn random_sizing(whitespace: bool) -> String {
    match random::<u8>() % 3 {
        0 => String::from(""),
        1 => {
            let size: u8 = random();
            if whitespace {
                format!("[{}{size}{}]", fill(), fill())
            } else {
                format!("[{size}]")
            }
        }
        _ => {
            if whitespace {
                format!("[{}]", fill())
            } else {
                String::from("[]")
            }
        }
    }
}

fn random_memberspec() -> String {
    let identifier = random_word();
    let dtype = random_word();
    let sizing = random_sizing(false);
    format!("{identifier}:{dtype}{sizing}")
}

fn random_memberspec_whitespace() -> String {
    let lidentifier = fill();
    let identifier = random_word();
    let ridentifier = fill();
    let ldtype = fill();
    let dtype = random_word();
    let rdtype = fill();
    let sizing = random_sizing(true);
    let endspace = fill();
    let idblock = format!("{lidentifier}{identifier}{ridentifier}");
    let dtypeblock = format!("{ldtype}{dtype}{rdtype}");
    format!("{idblock}:{dtypeblock}{sizing}{endspace}")
}

fn random_whitespace(num_chars: usize) -> String {
    let whitespace_chars = get_whitespace_chars();
    (0..num_chars)
        .map(|_| random::<usize>() % whitespace_chars.len())
        .map(|x| String::from(whitespace_chars[x]))
        .collect::<Vec<String>>()
        .join("")
}

fn fill() -> String {
    random_whitespace(random::<usize>() % 4)
}

#[test]
fn parsing_whitespace_ok() {
    let text = "  valid_word   ";
    let output = get_word(text, 0);
    let length = "valid_word".len();
    let token_data = TokenData::new(&text[2..(length + 2)], 2, length + 2);
    assert_eq!(output, WordParserOutput { word: Some(token_data), errors: Vec::new() });
}

#[test]
fn parsing_ok() {
    let text = "valid_word";
    let output = get_word(text, 0);
    let data = TokenData::new(text, 0, text.len());
    assert_eq!(output, WordParserOutput { word: Some(data), errors: Vec::new() });
}

#[test]
fn only_whitespace_err() {
    let text = "    ";
    let output = get_word(text, 0);
    assert_eq!(
        output,
        WordParserOutput {
            word: None,
            errors: vec![InternalError::Parsing {
                offender: TokenClone::new(text, 0),
                reason: ParsingFailure::UnexpectedEndOfExpression
            }],
        }
    );
}

#[test]
fn identifier_whitespace_ok() {
    let text = "  valid_identifier   ";
    let output = get_identifier(text, 0);
    let length = "valid_identifier".len();
    let itoken = IdentifierToken { data: TokenData::new(&text[2..(length + 2)], 2, length + 2) };
    assert_eq!(output, IdentifierParserOutput { identifier: Some(itoken), errors: Vec::new() });
}

#[test]
fn identifier_ok() {
    let text = "valid_identifier";
    let output = get_identifier(text, 0);
    let itoken = IdentifierToken { data: TokenData::new(text, 0, text.len()) };
    assert_eq!(output, IdentifierParserOutput { identifier: Some(itoken), errors: Vec::new() });
}

#[test]
fn dtype_whitespace_ok() {
    let text = "  valid_dtype   ";
    let output = get_dtype(text, 0);
    let length = "valid_dtype".len();
    let dtoken = DtypeToken { data: TokenData::new(&text[2..(length + 2)], 2, length + 2) };
    assert_eq!(output, DtypeParserOutput { dtype: Some(dtoken), errors: Vec::new() });
}

#[test]
fn dtype_ok() {
    let text = "valid_dtype";
    let output = get_dtype(text, 0);
    let dtoken = DtypeToken { data: TokenData::new(text, 0, text.len()) };
    assert_eq!(output, DtypeParserOutput { dtype: Some(dtoken), errors: Vec::new() });
}

#[test]
fn parsing_fixed_whitespace_ok() {
    let text = "  valid_sizing   ";
    let output = get_sizing(text, 0);
    let length = "valid_sizing".len();
    let stoken = SizingToken { data: TokenData::new(&text[2..(length + 2)], 2, length + 2) };
    assert_eq!(output, SizingParserOutput { sizing: Some(stoken), errors: Vec::new() });
}

#[test]
fn parsing_fixed_ok() {
    let text = "valid_sizing";
    let output = get_sizing(text, 0);
    let stoken = SizingToken { data: TokenData::new(text, 0, text.len()) };
    assert_eq!(output, SizingParserOutput { sizing: Some(stoken), errors: Vec::new() });
}

#[test]
fn parsing_dynamic_whitespace_ok() {
    let text = "     ";
    let output = get_sizing(text, 0);
    let length = "".len();
    let stoken = SizingToken { data: TokenData::new(&text[5..(length + 5)], 5, length + 5) };
    assert_eq!(output, SizingParserOutput { sizing: Some(stoken), errors: Vec::new() });
}

#[test]
fn dynamic_empty_ok() {
    let text = "";
    let output = get_sizing(text, 0);
    let stoken = SizingToken { data: TokenData::new(text, 0, text.len()) };
    assert_eq!(output, SizingParserOutput { sizing: Some(stoken), errors: Vec::new() });
}

#[test]
fn singleton_whitespace_ok() {
    let text = "  valid_singleton   ";
    let output = get_typespec(text, 0);
    let length = "valid_singleton".len();
    let dtoken = DtypeToken { data: TokenData::new(&text[2..(length + 2)], 2, length + 2) };
    assert_eq!(
        output,
        TypeSpecParserOutput { sizing: None, dtype: Some(dtoken), errors: Vec::new(), is_singleton: true }
    );
}

#[test]
fn parsing_singleton_ok() {
    let text = "valid_singleton";
    let output = get_typespec(text, 0);
    let dtoken = DtypeToken { data: TokenData::new(text, 0, text.len()) };
    assert_eq!(
        output,
        TypeSpecParserOutput { dtype: Some(dtoken), sizing: None, is_singleton: true, errors: Vec::new() }
    );
}

fn fixed_case(whitespace: &str) {
    let dtype_text = "valid_fixed";
    let sizing_text = "10";
    let sizing_body = format!("{whitespace}{sizing_text}{whitespace}");
    let body = format!("{dtype_text}[{sizing_body}]");
    let text = format!("{whitespace}{body}{whitespace}");
    let text = text.as_str();
    let start = whitespace.len();
    let end = start + dtype_text.len();
    let dtoken = DtypeToken { data: TokenData::new(&text[start..end], start, end) };
    let start = whitespace.len() + dtype_text.len() + 1 + whitespace.len();
    let end = start + sizing_text.len();
    let stoken = SizingToken { data: TokenData::new(&text[start..end], start, end) };
    let output = get_typespec(text, 0);
    assert_eq!(
        output,
        TypeSpecParserOutput { sizing: Some(stoken), dtype: Some(dtoken), errors: Vec::new(), is_singleton: false }
    );
}

#[test]
fn typespec_fixed_whitespace_ok() {
    fixed_case("  ");
}

#[test]
fn typespec_fixed_ok() {
    fixed_case("");
}

#[test]
fn unexpected_end_of_expression_fails() {
    let dtype_text = "valid_fixed";
    let sizing_body = "10";
    let text = format!("{dtype_text}[{sizing_body}");
    let text = text.as_str();
    let dtoken = DtypeToken { data: TokenData::new(&text[0..dtype_text.len()], 0, dtype_text.len()) };
    let output = get_typespec(text, 0);
    assert_eq!(
        output,
        TypeSpecParserOutput {
            sizing: None,
            dtype: Some(dtoken),
            errors: vec![InternalError::Parsing {
                offender: TokenClone::new(sizing_body, 11),
                reason: ParsingFailure::UnexpectedEndOfExpression
            }],
            is_singleton: false,
        }
    );
}

fn run_ok_simple(ident: &str, dtype: &str, sizing: Option<&str>) {
    let text = if let Some(size) = sizing {
        format!("{ident}:{dtype}[{size}]")
    } else {
        format!("{ident}:{dtype}")
    };
    let output = get_memberspec(&text, 0);
    let mut curr_end = ident.chars().count();
    let td_ident = TokenData::new(ident, 0, curr_end);
    curr_end += 1;
    let curr_start = curr_end;
    curr_end += dtype.chars().count();
    let td_dtype = TokenData::new(dtype, curr_start, curr_end);
    let t_sizing = if let Some(size) = sizing {
        curr_end += 1;
        let curr_start = curr_end;
        curr_end += size.chars().count();
        Some(SizingToken { data: TokenData::new(size, curr_start, curr_end) })
    } else {
        None
    };
    assert_eq!(output.identifier, Some(IdentifierToken { data: td_ident }));
    let typespec = output.typespec.as_ref().unwrap();
    assert_eq!(typespec.dtype, Some(DtypeToken { data: td_dtype }));
    assert_eq!(typespec.sizing, t_sizing);
    assert!(output.errors.is_empty());
}

fn run_ok_whitespace(ident: &str, dtype: &str, sizing: Option<&str>) {
    let lident = fill();
    let rident = fill();
    let ldtype = fill();
    let rdtype = fill();
    let lsizing = fill();
    let rsizing = fill();
    let end = fill();
    let text = if let Some(size) = sizing {
        format!("{lident}{ident}{rident}:{ldtype}{dtype}{rdtype}[{lsizing}{size}{rsizing}]{end}")
    } else {
        format!("{lident}{ident}{rident}:{ldtype}{dtype}{rdtype}")
    };
    let output = get_memberspec(&text, 0);
    let mut curr_end = lident.chars().count();
    let mut curr_start = curr_end;
    curr_end += ident.chars().count();
    let td_ident = TokenData::new(ident, curr_start, curr_end);
    curr_end += rident.chars().count();
    curr_end += 1;
    curr_end += ldtype.chars().count();
    curr_start = curr_end;
    curr_end += dtype.chars().count();
    let td_dtype = TokenData::new(dtype, curr_start, curr_end);
    curr_end += rdtype.chars().count();
    let t_sizing = if let Some(size) = sizing {
        curr_end += 1;
        curr_end += lsizing.chars().count();
        curr_start = curr_end;
        curr_end += size.chars().count();
        if size.chars().count() == 0 {
            curr_end += rsizing.chars().count();
            curr_start = curr_end;
        }
        Some(SizingToken { data: TokenData::new(size, curr_start, curr_end) })
    } else {
        None
    };
    assert_eq!(output.identifier, Some(IdentifierToken { data: td_ident }));
    let typespec = output.typespec.as_ref().unwrap();
    assert_eq!(typespec.dtype, Some(DtypeToken { data: td_dtype }));
    assert_eq!(typespec.sizing, t_sizing);
    assert!(output.errors.is_empty());
}

#[test]
fn whitespace_property_singleton_test() {
    for _ in 0..500 {
        run_ok_whitespace("foo", "u8", None);
    }
}

#[test]
fn whitespace_property_dynamic_test() {
    for _ in 0..500 {
        run_ok_whitespace("foo", "u8", Some(""));
    }
}

#[test]
fn whitespace_property_fixed_test() {
    for _ in 0..500 {
        run_ok_whitespace("foo", "u8", Some("1000"));
    }
}

#[test]
fn ok_invalid_string() {
    run_ok_simple("5ever", "silly", None);
}

#[test]
fn ok_valid_string() {
    run_ok_simple("animal", "string", None);
}

#[test]
fn ok_invalid_fixed_array_size() {
    run_ok_simple("myarr", "f32", Some("cat"));
}

#[test]
fn ok_invalid_fixed_array_type() {
    run_ok_simple("myarr", "cat", Some("5"));
}

#[test]
fn ok_valid_fixed_array() {
    run_ok_simple("myarr", "f32", Some("5"));
}

#[test]
fn ok_invalid_dyn_array() {
    run_ok_simple("myarr", "cat", Some(""));
}

#[test]
fn ok_invalid_space_in_ident() {
    run_ok_simple("foo bar", "u8", None)
}

#[test]
fn ok_valid_dyn_array() {
    run_ok_simple("myarr", "f32", Some(""));
}

#[test]
fn ok_no_whitespace() {
    run_ok_simple("myarr", "f32", Some("5"));
}

#[test]
fn missing_delimiter_fails() {
    let text = "  foo u8 ";
    let member_spec = get_memberspec(text, 0);
    assert_eq!(
        member_spec,
        MemberSpecParserOutput {
            identifier: None,
            typespec: None,
            errors: vec![InternalError::Parsing {
                offender: TokenClone::new("foo u8", 2),
                reason: ParsingFailure::MissingIdSpecDelimiter
            }]
        }
    )
}

fn start_positions_of(text: &str) -> Vec<usize> {
    let mut start_positions =
        text.char_indices().filter(|(_, c)| *c == ',').map(|(i, _)| i + 1).collect::<Vec<usize>>();
    start_positions.insert(0, 0);
    start_positions
}

fn all_errors(members: &[MemberSpecParserOutput]) -> Vec<InternalError> {
    let mut errors = Vec::new();
    for m in members {
        for e in &m.errors {
            errors.push(e.duplicate());
        }
    }
    errors
}

fn run_property_test(whitespace: bool) {
    let n_specs = random::<u8>() % 10 + 1;
    let generator = if whitespace { random_memberspec_whitespace } else { random_memberspec };
    let member_specs: Vec<String> = (0..n_specs).map(|_| generator()).collect();
    let metadata_spec_text = member_specs.join(",");
    let start_positions = start_positions_of(&metadata_spec_text);
    let parsed_members: Vec<MemberSpecParserOutput> = member_specs
        .iter()
        .zip(start_positions.iter())
        .map(|(x, pos)| get_memberspec(x, *pos))
        .collect();
    assert_eq!(start_positions.len(), parsed_members.len());
    let metadata_spec = get_metadataspec(&metadata_spec_text);
    assert_eq!(metadata_spec, MetadataSpecParserOutput { member_outputs: parsed_members, errors: Vec::new() });
}

#[test]
fn no_comma_ok() {
    let spec = "foo:u8";
    let metadata_spec = get_metadataspec(spec);
    assert_eq!(
        metadata_spec,
        MetadataSpecParserOutput { member_outputs: vec![get_memberspec(spec, 0)], errors: Vec::new() }
    );
}

#[test]
fn two_members_no_whitespace() {
    let m1 = "foo:u8[10]";
    let m2 = "bar:i32[]";
    let spec = &format!("{m1},{m2}");
    let metadata_spec = get_metadataspec(spec);
    assert_eq!(
        metadata_spec,
        MetadataSpecParserOutput {
            member_outputs: vec![get_memberspec(m1, 0), get_memberspec(m2, m1.chars().count() + 1)],
            errors: Vec::new(),
        }
    );
}

#[test]
fn no_whitespace_property_ok() {
    for _ in 0..500 {
        run_property_test(false)
    }
}

#[test]
fn whitespace_property_ok() {
    for _ in 0..500 {
        run_property_test(true)
    }
}

#[test]
fn blank_spec_ok() {
    let spec = "";
    let metadata_spec = get_metadataspec(spec);
    assert_eq!(metadata_spec, MetadataSpecParserOutput { member_outputs: Vec::new(), errors: Vec::new() });
}

#[test]
fn some_ok_some_not() {
    let member_specs = ["woofs: u8", ": f32[", "splashes: i32[100]", "flaps: []", "meows: i32"];
    let spec = member_specs.join(",");
    let start_positions = start_positions_of(&spec);
    let parsed_members: Vec<MemberSpecParserOutput> = member_specs
        .iter()
        .zip(start_positions.iter())
        .map(|(x, pos)| get_memberspec(x, *pos))
        .collect();
    assert_eq!(start_positions.len(), parsed_members.len());
    let metadata_spec = get_metadataspec(&spec);
    let expected_errors = all_errors(&parsed_members);
    assert_eq!(metadata_spec, MetadataSpecParserOutput { member_outputs: parsed_members, errors: expected_errors });
}

#[test]
fn later_members_start_at_byte_offsets() {
    let spec = "\u{1F980}a: u8,b: u8";
    let parsed = get_metadataspec(spec);
    assert_eq!(parsed.member_outputs.len(), 2);
    assert_eq!(parsed.member_outputs[1], get_memberspec("b: u8", "\u{1F980}a: u8".len() + 1));
    assert!(parsed.member_outputs[1].has_ident() && parsed.member_outputs[1].has_dtype());
    assert!(parsed.member_outputs[1].has_sizing());
}
