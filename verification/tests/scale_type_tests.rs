use scale_type::ScaleType;

#[test]
fn round_trip_fill_center() {
    let v = ScaleType::parse("fill-center").unwrap();
    assert!(v == ScaleType::FillCenter);
    assert!(v.format() == "fill-center");
}

#[test]
fn round_trip_fit_center() {
    let v = ScaleType::parse("fit-center").unwrap();
    assert!(v == ScaleType::FitCenter);
    assert!(v.format() == "fit-center");
}

#[test]
fn round_trip_fit_bottom() {
    let v = ScaleType::parse("fit-bottom").unwrap();
    assert!(v == ScaleType::FitBottom);
    assert!(v.format() == "fit-bottom");
}

#[test]
fn parse_is_case_insensitive_upper() {
    assert!(ScaleType::parse("FILL-CENTER") == Ok(ScaleType::FillCenter));
    assert!(ScaleType::parse("FIT-CENTER") == Ok(ScaleType::FitCenter));
    assert!(ScaleType::parse("FIT-BOTTOM") == Ok(ScaleType::FitBottom));
}

#[test]
fn parse_is_case_insensitive_mixed() {
    assert!(ScaleType::parse("Fill-Center") == Ok(ScaleType::FillCenter));
    assert!(ScaleType::parse("fIt-CeNtEr") == Ok(ScaleType::FitCenter));
    assert!(ScaleType::parse("Fit-bottoM") == Ok(ScaleType::FitBottom));
}

#[test]
fn parse_rejects_unknown_word() {
    assert!(ScaleType::parse("stretch") == Err(String::from("invalid variant: stretch")));
}

#[test]
fn parse_rejects_empty_input() {
    assert!(ScaleType::parse("") == Err(String::from("invalid variant: ")));
}

#[test]
fn parse_rejects_underscore_form() {
    assert!(ScaleType::parse("fill_center") == Err(String::from("invalid variant: fill_center")));
    assert!(ScaleType::parse("fit_center") == Err(String::from("invalid variant: fit_center")));
}

#[test]
fn parse_rejects_unhyphenated_form() {
    assert!(ScaleType::parse("fillcenter") == Err(String::from("invalid variant: fillcenter")));
}

#[test]
fn parse_rejects_variant_name() {
    assert!(ScaleType::parse("FillCenter") == Err(String::from("invalid variant: FillCenter")));
}

#[test]
fn parse_keeps_offending_input_verbatim() {
    assert!(ScaleType::parse("  fit-center ") == Err(String::from("invalid variant:   fit-center ")));
    assert!(ScaleType::parse("fit-center!") == Err(String::from("invalid variant: fit-center!")));
}

#[test]
fn enumerate_gives_declaration_order() {
    let all = ScaleType::enumerate();
    assert!(all == vec![ScaleType::FillCenter, ScaleType::FitCenter, ScaleType::FitBottom]);
}

#[test]
fn enumerate_has_no_duplicates() {
    let all = ScaleType::enumerate();
    assert!(all.len() == 3);
    for i in 0..all.len() {
        for j in 0..all.len() {
            if i != j {
                assert!(all[i] != all[j]);
            }
        }
    }
}

#[test]
fn ordering_follows_declaration_order() {
    assert!(ScaleType::FillCenter < ScaleType::FitCenter);
    assert!(ScaleType::FitCenter < ScaleType::FitBottom);
    assert!(ScaleType::FillCenter < ScaleType::FitBottom);
}

#[test]
fn ordering_is_irreflexive_and_asymmetric() {
    assert!(!(ScaleType::FillCenter < ScaleType::FillCenter));
    assert!(!(ScaleType::FitCenter < ScaleType::FillCenter));
    assert!(ScaleType::FitBottom > ScaleType::FillCenter);
}

#[test]
fn format_gives_canonical_tokens() {
    assert!(ScaleType::FillCenter.format() == "fill-center");
    assert!(ScaleType::FitCenter.format() == "fit-center");
    assert!(ScaleType::FitBottom.format() == "fit-bottom");
}

#[test]
fn format_equals_token_for_every_variant() {
    for v in ScaleType::enumerate() {
        assert!(v.format() == v.token());
    }
}

#[test]
fn describe_gives_token_and_help() {
    assert!(
        ScaleType::FillCenter.describe()
            == ("fill-center", "Scale to fill animation bounds")
    );
    assert!(
        ScaleType::FitCenter.describe()
            == ("fit-center", "Scale to fit in animation bounds")
    );
    assert!(
        ScaleType::FitBottom.describe()
            == ("fit-bottom", "Scale to fit in animation bounds and align bottom")
    );
}

#[test]
fn position_is_index_in_enumeration() {
    let all = ScaleType::enumerate();
    for (i, v) in all.iter().enumerate() {
        assert!(v.position() == i);
    }
}

#[test]
fn scenario_parse_fit_center() {
    assert!(ScaleType::parse("fit-center") == Ok(ScaleType::FitCenter));
}

#[test]
fn scenario_parse_fit_center_upper() {
    assert!(ScaleType::parse("FIT-CENTER") == Ok(ScaleType::FitCenter));
}

#[test]
fn scenario_parse_fit_center_underscore_fails() {
    assert!(ScaleType::parse("fit_center") == Err(String::from("invalid variant: fit_center")));
}

#[test]
fn scenario_format_fit_bottom() {
    assert!(ScaleType::FitBottom.format() == "fit-bottom");
}
