use linkedin_api_rs::strutil::split_str;
use linkedin_api_rs::strutil::trim_str;
use linkedin_api_rs::strutil::usize_to_string;
use linkedin_api_rs::types::Address;
use linkedin_api_rs::types::Connection;
use linkedin_api_rs::types::Education;
use linkedin_api_rs::types::Experience;
use linkedin_api_rs::types::ImageArtifact;
use linkedin_api_rs::types::PersonName;
use linkedin_api_rs::types::PersonSearchResult;
use linkedin_api_rs::types::Profile;
use linkedin_api_rs::types::TimePeriod;
use linkedin_api_rs::types::VectorImage;
use linkedin_api_rs::types::VectorImageContainer;
use linkedin_api_rs::types::YearMonth;
use linkedin_api_rs::types::connections_from_results;
use linkedin_api_rs::types::month_count_text;

fn blank_profile() -> Profile {
    Profile {
        entity_urn: None,
        first_name: None,
        last_name: None,
        headline: None,
        summary: None,
        industry_name: None,
        industry_urn: None,
        geo_country_name: None,
        geo_country_urn: None,
        geo_location_name: None,
        geo_location_backfilled: None,
        geo_location: None,
        address: None,
        birth_date: None,
        default_locale: None,
        supported_locales: None,
        location: None,
        location_name: None,
        mini_profile: None,
        profile_picture: None,
        profile_picture_original_image: None,
        show_education_on_profile_top_card: None,
        student: None,
        elt: None,
        version_tag: None,
        profile_id: String::new(),
        experience: Vec::new(),
        education: Vec::new(),
        skills: Vec::new(),
        contact: linkedin_api_rs::types::ContactInfo {
            email_address: None,
            websites: Vec::new(),
            twitter: Vec::new(),
            phone_numbers: Vec::new(),
            birthdate: None,
            ims: None,
        },
    }
}

fn blank_education() -> Education {
    Education {
        entity_urn: String::new(),
        school_name: None,
        school_urn: None,
        school: None,
        degree_name: None,
        degree_urn: None,
        field_of_study: None,
        field_of_study_urn: None,
        activities: None,
        description: None,
        grade: None,
        time_period: None,
        honors: Vec::new(),
        test_scores: Vec::new(),
    }
}

#[test]
fn full_name_joins_with_space() {
    let name = PersonName { first: "Ada".to_string(), last: "Lovelace".to_string() };
    assert_eq!(name.full_name(), "Ada Lovelace");
}

#[test]
fn profile_full_name_handles_missing_parts() {
    let mut p = blank_profile();
    assert_eq!(p.get_full_name(), None);
    p.first_name = Some("Ada".to_string());
    assert_eq!(p.get_full_name(), Some("Ada".to_string()));
    p.last_name = Some("Lovelace".to_string());
    assert_eq!(p.get_full_name(), Some("Ada Lovelace".to_string()));
    p.first_name = None;
    assert_eq!(p.get_full_name(), Some("Lovelace".to_string()));
}

#[test]
fn profile_id_is_last_urn_part() {
    let mut p = blank_profile();
    p.entity_urn = Some("urn:li:fs_profile:ACoAAxyz".to_string());
    assert_eq!(p.get_profile_id(), Some("ACoAAxyz".to_string()));
    p.entity_urn = None;
    assert_eq!(p.get_profile_id(), None);
}

#[test]
fn address_parse_splits_and_trims() {
    let a = Address::parse("1 Main St ,  Springfield , IL , 62704");
    assert_eq!(a.raw, "1 Main St ,  Springfield , IL , 62704");
    assert_eq!(a.street, Some("1 Main St".to_string()));
    assert_eq!(a.city, Some("Springfield".to_string()));
    assert_eq!(a.state, Some("IL".to_string()));
    assert_eq!(a.country, None);
    assert_eq!(a.postal_code, None);
}

#[test]
fn address_parse_with_few_parts() {
    let a = Address::parse("Somewhere");
    assert_eq!(a.street, Some("Somewhere".to_string()));
    assert_eq!(a.city, None);
    assert_eq!(a.state, None);
}

#[test]
fn activities_list_strips_markers_and_empty_lines() {
    let mut e = blank_education();
    e.activities = Some("- Chess club\n  - Debate team  \n\n- - Nested\nPlain".to_string());
    assert_eq!(
        e.get_activities_list(),
        vec![
            "Chess club".to_string(),
            "Debate team".to_string(),
            "Nested".to_string(),
            "Plain".to_string(),
        ]
    );
    e.activities = None;
    assert_eq!(e.get_activities_list(), Vec::<String>::new());
}

#[test]
fn is_current_means_no_end_date() {
    let mut e = Experience {
        entity_urn: None,
        title: None,
        company_name: None,
        company_urn: None,
        company: None,
        description: None,
        time_period: None,
        geo_location_name: None,
        geo_urn: None,
        location_name: None,
        region: None,
    };
    assert!(!e.is_current());
    e.time_period = Some(TimePeriod {
        start_date: YearMonth { year: 2020, month: 1 },
        end_date: None,
    });
    assert!(e.is_current());
    e.time_period = Some(TimePeriod {
        start_date: YearMonth { year: 2020, month: 1 },
        end_date: Some(YearMonth { year: 2021, month: 6 }),
    });
    assert!(!e.is_current());
}

#[test]
fn duration_months_is_exact_and_at_least_one() {
    let tp = TimePeriod {
        start_date: YearMonth { year: 2020, month: 1 },
        end_date: Some(YearMonth { year: 2021, month: 6 }),
    };
    assert_eq!(tp.duration_months_at(&YearMonth { year: 2026, month: 1 }), 17);
    // with an end date the span is clock-independent
    assert_eq!(tp.duration_months(), Some(17));

    let same_month = TimePeriod {
        start_date: YearMonth { year: 2020, month: 3 },
        end_date: Some(YearMonth { year: 2020, month: 3 }),
    };
    assert_eq!(same_month.duration_months_at(&YearMonth { year: 2026, month: 1 }), 1);

    let backwards = TimePeriod {
        start_date: YearMonth { year: 2022, month: 1 },
        end_date: Some(YearMonth { year: 2020, month: 1 }),
    };
    assert_eq!(backwards.duration_months_at(&YearMonth { year: 2026, month: 1 }), 1);

    let open_ended = TimePeriod {
        start_date: YearMonth { year: 2020, month: 1 },
        end_date: None,
    };
    assert_eq!(open_ended.duration_months_at(&YearMonth { year: 2026, month: 1 }), 72);
    // measured against the real current month: present and at least one
    assert!(open_ended.duration_months().unwrap() >= 1);
}

#[test]
fn duration_text_exact_wording() {
    assert_eq!(month_count_text(1), "1 month");
    assert_eq!(month_count_text(5), "5 months");
    assert_eq!(month_count_text(12), "1 year");
    assert_eq!(month_count_text(24), "2 years");
    assert_eq!(month_count_text(13), "1 year 1 months");
    assert_eq!(month_count_text(27), "2 years 3 months");
    let tp = TimePeriod {
        start_date: YearMonth { year: 2020, month: 1 },
        end_date: Some(YearMonth { year: 2021, month: 6 }),
    };
    assert_eq!(tp.duration_string_at(&YearMonth { year: 2026, month: 1 }), "1 year 5 months");
}

#[test]
fn image_url_concatenates_root_and_first_artifact() {
    let vi = VectorImage {
        root_url: Some("https://media.example/".to_string()),
        artifacts: vec![ImageArtifact {
            height: 100,
            width: 100,
            expires_at: None,
            file_identifying_url_path_segment: Some("100_100/img.jpg".to_string()),
        }],
    };
    assert_eq!(vi.url_text(), Some("https://media.example/100_100/img.jpg".to_string()));

    let mut p = blank_profile();
    p.profile_picture_original_image = Some(VectorImageContainer { vector_image: Some(vi) });
    assert_eq!(
        p.get_profile_image_url(),
        Some("https://media.example/100_100/img.jpg".to_string())
    );
}

#[test]
fn image_url_absent_without_root_or_artifacts() {
    let no_root = VectorImage { root_url: None, artifacts: Vec::new() };
    assert_eq!(no_root.url_text(), None);
    let no_artifacts = VectorImage {
        root_url: Some("https://media.example/".to_string()),
        artifacts: Vec::new(),
    };
    assert_eq!(no_artifacts.url_text(), None);
}

#[test]
fn connections_map_field_for_field() {
    let results = vec![
        PersonSearchResult {
            urn_id: "u1".to_string(),
            public_id: "p1".to_string(),
            distance: "DISTANCE_1".to_string(),
        },
        PersonSearchResult {
            urn_id: "u2".to_string(),
            public_id: "p2".to_string(),
            distance: "DISTANCE_2".to_string(),
        },
    ];
    let connections: Vec<Connection> = connections_from_results(results);
    assert_eq!(connections.len(), 2);
    assert_eq!(connections[0].urn_id, "u1");
    assert_eq!(connections[0].public_id, "p1");
    assert_eq!(connections[1].distance, "DISTANCE_2");
}

#[test]
fn string_helpers_exact_values() {
    assert_eq!(split_str("a:b::c", ':'), vec!["a", "b", "", "c"]);
    assert_eq!(split_str("", ':'), vec![""]);
    assert_eq!(trim_str("  padded \t"), "padded");
    assert_eq!(usize_to_string(0), "0");
    assert_eq!(usize_to_string(42), "42");
    assert_eq!(usize_to_string(1234567890), "1234567890");
}
