use ping_thing_client::commitment::{
    commitment_from_name, parse_commitment, Commitment, InvalidCommitment,
};

#[test]
fn the_three_levels_parse() {
    assert_eq!(parse_commitment("processed"), Ok(Commitment::Processed));
    assert_eq!(parse_commitment("confirmed"), Ok(Commitment::Confirmed));
    assert_eq!(parse_commitment("finalized"), Ok(Commitment::Finalized));
}

#[test]
fn the_case_of_the_letters_does_not_matter() {
    assert_eq!(parse_commitment("Processed"), Ok(Commitment::Processed));
    assert_eq!(parse_commitment("CONFIRMED"), Ok(Commitment::Confirmed));
    assert_eq!(parse_commitment("fInAlIzEd"), Ok(Commitment::Finalized));
}

#[test]
fn any_other_text_is_an_error_that_holds_it() {
    for text in ["", "final", "confirmed ", " processed", "Recent", "finalised"] {
        assert_eq!(parse_commitment(text), Err(InvalidCommitment { given: text.to_string() }));
    }
}

#[test]
fn a_name_is_read_as_it_stands() {
    assert_eq!(commitment_from_name("confirmed"), Some(Commitment::Confirmed));
    assert_eq!(commitment_from_name("processed"), Some(Commitment::Processed));
    assert_eq!(commitment_from_name("finalized"), Some(Commitment::Finalized));
    assert_eq!(commitment_from_name("Confirmed"), None);
    assert_eq!(commitment_from_name(""), None);
}

#[test]
fn a_level_names_itself() {
    assert_eq!(Commitment::Processed.name(), "processed");
    assert_eq!(Commitment::Confirmed.name(), "confirmed");
    assert_eq!(Commitment::Finalized.name(), "finalized");
    for level in [Commitment::Processed, Commitment::Confirmed, Commitment::Finalized] {
        assert_eq!(parse_commitment(&level.name()), Ok(level));
    }
}

#[test]
fn the_error_in_words() {
    let error = parse_commitment("Recent").unwrap_err();
    assert_eq!(
        error.message(),
        "Invalid commitment level: Recent. Must be one of: processed, confirmed, finalized"
    );
}
