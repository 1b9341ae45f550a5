use hlsl_assets::{validate, Profile, Stage};

fn stage_of(prefix: &str) -> Stage {
    match prefix {
        "ps" => Stage::Pixel,
        "vs" => Stage::Vertex,
        "gs" => Stage::Geometry,
        "hs" => Stage::Hull,
        "ds" => Stage::Domain,
        "cs" => Stage::Compute,
        "lib" => Stage::Library,
        "ms" => Stage::Mesh,
        "as" => Stage::Amplification,
        _ => unreachable!(),
    }
}

#[test]
fn every_listed_profile_is_accepted() {
    let families: [(&str, u8); 9] = [
        ("ps", 0),
        ("vs", 0),
        ("gs", 0),
        ("hs", 0),
        ("ds", 0),
        ("cs", 0),
        ("lib", 1),
        ("ms", 5),
        ("as", 5),
    ];
    let mut count = 0;
    for (prefix, first) in families {
        for minor in first..=7u8 {
            let token = format!("{}_6_{}", prefix, minor);
            let p = validate(&token).unwrap();
            assert_eq!(p, Profile { stage: stage_of(prefix), minor });
            assert_eq!(p.token(), token);
            count += 1;
        }
    }
    assert_eq!(count, 61);
}

#[test]
fn versions_a_stage_lacks_are_rejected() {
    for token in ["lib_6_0", "ms_6_4", "as_6_0", "ps_6_8", "vs_6_9"] {
        let e = validate(token).unwrap_err();
        assert_eq!(e.token, token);
    }
}

#[test]
fn malformed_tokens_are_rejected() {
    for token in ["", "ps", "ps_6", "ps_5_0", "PS_6_0", "ps-6-0", "xs_6_0", "ps_6_0 ", "libx6_1", "lob_6_1", "ps_6_00"] {
        assert!(validate(token).is_err(), "{token:?} should be rejected");
    }
}

#[test]
fn entry_points_follow_the_stage() {
    assert_eq!(validate("ps_6_0").unwrap().entry_point(), Some("fragment"));
    assert_eq!(validate("vs_6_7").unwrap().entry_point(), Some("vertex"));
    for token in ["gs_6_1", "hs_6_2", "ds_6_3", "cs_6_4", "lib_6_5", "ms_6_6", "as_6_7"] {
        assert_eq!(validate(token).unwrap().entry_point(), None);
    }
    assert_eq!(Stage::Pixel.prefix(), "ps");
    assert_eq!(Stage::Library.prefix(), "lib");
}
