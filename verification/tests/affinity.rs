use bobby::affinity::{parse_affinity, Affinity};

#[test]
fn varchar_with_length_is_text() {
    assert_eq!(parse_affinity("VARCHAR(255)"), Affinity::TEXT);
}

#[test]
fn empty_declaration_is_blob() {
    assert_eq!(parse_affinity(""), Affinity::BLOB);
}

#[test]
fn bigint_is_integer() {
    assert_eq!(parse_affinity("BIGINT"), Affinity::INTEGER);
}

#[test]
fn double_precision_is_real() {
    assert_eq!(parse_affinity("DOUBLE PRECISION"), Affinity::REAL);
}

#[test]
fn unknown_declaration_is_numeric() {
    assert_eq!(parse_affinity("MYTYPE"), Affinity::NUMERIC);
}

#[test]
fn declarations_are_matched_whatever_their_case() {
    assert_eq!(parse_affinity("varchar(12)"), Affinity::TEXT);
    assert_eq!(parse_affinity("Integer"), Affinity::INTEGER);
    assert_eq!(parse_affinity("blob"), Affinity::BLOB);
    assert_eq!(parse_affinity("float"), Affinity::REAL);
    assert_eq!(parse_affinity("decimal(10,5)"), Affinity::NUMERIC);
}

#[test]
fn integer_is_checked_before_text() {
    // "POINT" holds "INT"; "CHARINT" holds both "CHAR" and "INT".
    assert_eq!(parse_affinity("FLOATING POINT"), Affinity::INTEGER);
    assert_eq!(parse_affinity("CHARINT"), Affinity::INTEGER);
}

#[test]
fn text_is_checked_before_blob_and_real() {
    assert_eq!(parse_affinity("TEXTBLOB"), Affinity::TEXT);
    assert_eq!(parse_affinity("REALCLOB"), Affinity::TEXT);
    assert_eq!(parse_affinity("NCHAR(55)"), Affinity::TEXT);
}

#[test]
fn blob_is_checked_before_real() {
    assert_eq!(parse_affinity("BLOBREAL"), Affinity::BLOB);
}

#[test]
fn only_the_part_before_the_parenthesis_counts() {
    assert_eq!(parse_affinity("MONEY(INT)"), Affinity::NUMERIC);
    assert_eq!(parse_affinity("(TEXT)"), Affinity::BLOB);
    assert_eq!(parse_affinity("X(1)(TEXT)"), Affinity::NUMERIC);
}

#[test]
fn all_rules_for_real() {
    assert_eq!(parse_affinity("REAL"), Affinity::REAL);
    assert_eq!(parse_affinity("FLOAT"), Affinity::REAL);
    assert_eq!(parse_affinity("DOUBLE"), Affinity::REAL);
}

#[test]
fn uppercased_declaration_is_classified_as_it_stands() {
    assert_eq!(Affinity::of_uppercased("TINYINT"), Affinity::INTEGER);
    assert_eq!(Affinity::of_uppercased("tinyint"), Affinity::NUMERIC);
    assert_eq!(Affinity::of_uppercased(""), Affinity::BLOB);
}

#[test]
fn affinity_parses_from_str() {
    assert_eq!("VARCHAR(255)".parse::<Affinity>(), Ok(Affinity::TEXT));
    assert_eq!("".parse::<Affinity>(), Ok(Affinity::BLOB));
}

#[test]
fn default_affinity_is_numeric() {
    assert_eq!(Affinity::default(), Affinity::NUMERIC);
}

#[test]
fn affinity_type_tags() {
    assert_eq!(Affinity::NUMERIC.type_tag(), "NUMERIC");
    assert_eq!(Affinity::INTEGER.type_tag(), "INTEGER");
    assert_eq!(Affinity::REAL.type_tag(), "REAL");
    assert_eq!(Affinity::TEXT.type_tag(), "TEXT");
    assert_eq!(Affinity::BLOB.type_tag(), "BLOB");
}
