use license::{from_id_ext, Conditions, Limitations, Permissions};

const PERMISSIONS_LINES: [&str; 5] = [
    "- May be used for commercial purposes.",
    "- May be distributed.",
    "- May be modified.",
    "- Provides an express grant of patent rights from contributors.",
    "- May be used for private purposes.",
];

const CONDITIONS_LINES: [&str; 5] = [
    "- Source code must be made available when the software is distributed.",
    "- Changes made to the code must be documented.",
    "- The license and copyright notice must be included with the software.",
    "- Users who interact with the software via network are given the right to receive a copy of the source code.",
    "- Modifications must be released under the same license.",
];

const LIMITATIONS_LINES: [&str; 4] = [
    "- Includes a limitation of liability.",
    "- Does not grant trademark rights.",
    "- Does not provide any warranty.",
    "- Does not provide any rights in the patents of contributors.",
];

#[test]
fn default_permissions_hold_nothing_and_render_empty() {
    let group = Permissions::default();
    assert!(!group.commercial_use());
    assert!(!group.distribution());
    assert!(!group.modification());
    assert!(!group.patent_rights());
    assert!(!group.private_use());
    assert_eq!(group.to_string(), "");
}

#[test]
fn permissions_render_every_fact_in_declared_order() {
    let group = Permissions {
        commercial_use: true,
        distribution: true,
        modification: true,
        patent_rights: true,
        private_use: true,
    };
    assert_eq!(
        group.to_string(),
        "- May be used for commercial purposes.\n\
         - May be distributed.\n\
         - May be modified.\n\
         - Provides an express grant of patent rights from contributors.\n\
         - May be used for private purposes.\n"
    );
}

#[test]
fn permissions_render_exactly_what_holds_for_every_subset() {
    for bits in 0..(1u32 << 5) {
        let on = |i: u32| bits & (1 << i) != 0;
        let group = Permissions {
            commercial_use: on(0),
            distribution: on(1),
            modification: on(2),
            patent_rights: on(3),
            private_use: on(4),
        };
        let mut expected = String::new();
        for i in 0..5 {
            if on(i) {
                expected.push_str(PERMISSIONS_LINES[i as usize]);
                expected.push('\n');
            }
        }
        let text = group.to_string();
        assert_eq!(text, expected);
        assert_eq!(text.lines().count() as u32, bits.count_ones());
        assert!(text.is_empty() || text.ends_with('\n'));
    }
}

#[test]
fn permissions_commercial_use_alone() {
    let group = Permissions { commercial_use: true, ..Permissions::default() };
    assert_eq!(group.commercial_use(), true);
    assert_eq!(group.distribution(), false);
    assert_eq!(group.modification(), false);
    assert_eq!(group.patent_rights(), false);
    assert_eq!(group.private_use(), false);
    assert_eq!(group.to_string(), "- May be used for commercial purposes.\n");
}

#[test]
fn permissions_distribution_alone() {
    let group = Permissions { distribution: true, ..Permissions::default() };
    assert_eq!(group.commercial_use(), false);
    assert_eq!(group.distribution(), true);
    assert_eq!(group.modification(), false);
    assert_eq!(group.patent_rights(), false);
    assert_eq!(group.private_use(), false);
    assert_eq!(group.to_string(), "- May be distributed.\n");
}

#[test]
fn permissions_modification_alone() {
    let group = Permissions { modification: true, ..Permissions::default() };
    assert_eq!(group.commercial_use(), false);
    assert_eq!(group.distribution(), false);
    assert_eq!(group.modification(), true);
    assert_eq!(group.patent_rights(), false);
    assert_eq!(group.private_use(), false);
    assert_eq!(group.to_string(), "- May be modified.\n");
}

#[test]
fn permissions_patent_rights_alone() {
    let group = Permissions { patent_rights: true, ..Permissions::default() };
    assert_eq!(group.commercial_use(), false);
    assert_eq!(group.distribution(), false);
    assert_eq!(group.modification(), false);
    assert_eq!(group.patent_rights(), true);
    assert_eq!(group.private_use(), false);
    assert_eq!(group.to_string(), "- Provides an express grant of patent rights from contributors.\n");
}

#[test]
fn permissions_private_use_alone() {
    let group = Permissions { private_use: true, ..Permissions::default() };
    assert_eq!(group.commercial_use(), false);
    assert_eq!(group.distribution(), false);
    assert_eq!(group.modification(), false);
    assert_eq!(group.patent_rights(), false);
    assert_eq!(group.private_use(), true);
    assert_eq!(group.to_string(), "- May be used for private purposes.\n");
}

#[test]
fn default_conditions_hold_nothing_and_render_empty() {
    let group = Conditions::default();
    assert!(!group.disclose_sources());
    assert!(!group.document_changes());
    assert!(!group.license_and_copyright_notice());
    assert!(!group.network_use_is_distribution());
    assert!(!group.same_license());
    assert_eq!(group.to_string(), "");
}

#[test]
fn conditions_render_every_fact_in_declared_order() {
    let group = Conditions {
        disclose_sources: true,
        document_changes: true,
        license_and_copyright_notice: true,
        network_use_is_distribution: true,
        same_license: true,
    };
    assert_eq!(
        group.to_string(),
        "- Source code must be made available when the software is distributed.\n\
         - Changes made to the code must be documented.\n\
         - The license and copyright notice must be included with the software.\n\
         - Users who interact with the software via network are given the right to receive a copy of the source code.\n\
         - Modifications must be released under the same license.\n"
    );
}

#[test]
fn conditions_render_exactly_what_holds_for_every_subset() {
    for bits in 0..(1u32 << 5) {
        let on = |i: u32| bits & (1 << i) != 0;
        let group = Conditions {
            disclose_sources: on(0),
            document_changes: on(1),
            license_and_copyright_notice: on(2),
            network_use_is_distribution: on(3),
            same_license: on(4),
        };
        let mut expected = String::new();
        for i in 0..5 {
            if on(i) {
                expected.push_str(CONDITIONS_LINES[i as usize]);
                expected.push('\n');
            }
        }
        let text = group.to_string();
        assert_eq!(text, expected);
        assert_eq!(text.lines().count() as u32, bits.count_ones());
        assert!(text.is_empty() || text.ends_with('\n'));
    }
}

#[test]
fn conditions_disclose_sources_alone() {
    let group = Conditions { disclose_sources: true, ..Conditions::default() };
    assert_eq!(group.disclose_sources(), true);
    assert_eq!(group.document_changes(), false);
    assert_eq!(group.license_and_copyright_notice(), false);
    assert_eq!(group.network_use_is_distribution(), false);
    assert_eq!(group.same_license(), false);
    assert_eq!(group.to_string(), "- Source code must be made available when the software is distributed.\n");
}

#[test]
fn conditions_document_changes_alone() {
    let group = Conditions { document_changes: true, ..Conditions::default() };
    assert_eq!(group.disclose_sources(), false);
    assert_eq!(group.document_changes(), true);
    assert_eq!(group.license_and_copyright_notice(), false);
    assert_eq!(group.network_use_is_distribution(), false);
    assert_eq!(group.same_license(), false);
    assert_eq!(group.to_string(), "- Changes made to the code must be documented.\n");
}

#[test]
fn conditions_license_and_copyright_notice_alone() {
    let group = Conditions { license_and_copyright_notice: true, ..Conditions::default() };
    assert_eq!(group.disclose_sources(), false);
    assert_eq!(group.document_changes(), false);
    assert_eq!(group.license_and_copyright_notice(), true);
    assert_eq!(group.network_use_is_distribution(), false);
    assert_eq!(group.same_license(), false);
    assert_eq!(group.to_string(), "- The license and copyright notice must be included with the software.\n");
}

#[test]
fn conditions_network_use_is_distribution_alone() {
    let group = Conditions { network_use_is_distribution: true, ..Conditions::default() };
    assert_eq!(group.disclose_sources(), false);
    assert_eq!(group.document_changes(), false);
    assert_eq!(group.license_and_copyright_notice(), false);
    assert_eq!(group.network_use_is_distribution(), true);
    assert_eq!(group.same_license(), false);
    assert_eq!(group.to_string(), "- Users who interact with the software via network are given the right to receive a copy of the source code.\n");
}

#[test]
fn conditions_same_license_alone() {
    let group = Conditions { same_license: true, ..Conditions::default() };
    assert_eq!(group.disclose_sources(), false);
    assert_eq!(group.document_changes(), false);
    assert_eq!(group.license_and_copyright_notice(), false);
    assert_eq!(group.network_use_is_distribution(), false);
    assert_eq!(group.same_license(), true);
    assert_eq!(group.to_string(), "- Modifications must be released under the same license.\n");
}

#[test]
fn default_limitations_hold_nothing_and_render_empty() {
    let group = Limitations::default();
    assert!(!group.no_liability());
    assert!(!group.no_trademark_rights());
    assert!(!group.no_warranty());
    assert!(!group.no_patent_rights());
    assert_eq!(group.to_string(), "");
}

#[test]
fn limitations_render_every_fact_in_declared_order() {
    let group = Limitations {
        no_liability: true,
        no_trademark_rights: true,
        no_warranty: true,
        no_patent_rights: true,
    };
    assert_eq!(
        group.to_string(),
        "- Includes a limitation of liability.\n\
         - Does not grant trademark rights.\n\
         - Does not provide any warranty.\n\
         - Does not provide any rights in the patents of contributors.\n"
    );
}

#[test]
fn limitations_render_exactly_what_holds_for_every_subset() {
    for bits in 0..(1u32 << 4) {
        let on = |i: u32| bits & (1 << i) != 0;
        let group = Limitations {
            no_liability: on(0),
            no_trademark_rights: on(1),
            no_warranty: on(2),
            no_patent_rights: on(3),
        };
        let mut expected = String::new();
        for i in 0..4 {
            if on(i) {
                expected.push_str(LIMITATIONS_LINES[i as usize]);
                expected.push('\n');
            }
        }
        let text = group.to_string();
        assert_eq!(text, expected);
        assert_eq!(text.lines().count() as u32, bits.count_ones());
        assert!(text.is_empty() || text.ends_with('\n'));
    }
}

#[test]
fn limitations_no_liability_alone() {
    let group = Limitations { no_liability: true, ..Limitations::default() };
    assert_eq!(group.no_liability(), true);
    assert_eq!(group.no_trademark_rights(), false);
    assert_eq!(group.no_warranty(), false);
    assert_eq!(group.no_patent_rights(), false);
    assert_eq!(group.to_string(), "- Includes a limitation of liability.\n");
}

#[test]
fn limitations_no_trademark_rights_alone() {
    let group = Limitations { no_trademark_rights: true, ..Limitations::default() };
    assert_eq!(group.no_liability(), false);
    assert_eq!(group.no_trademark_rights(), true);
    assert_eq!(group.no_warranty(), false);
    assert_eq!(group.no_patent_rights(), false);
    assert_eq!(group.to_string(), "- Does not grant trademark rights.\n");
}

#[test]
fn limitations_no_warranty_alone() {
    let group = Limitations { no_warranty: true, ..Limitations::default() };
    assert_eq!(group.no_liability(), false);
    assert_eq!(group.no_trademark_rights(), false);
    assert_eq!(group.no_warranty(), true);
    assert_eq!(group.no_patent_rights(), false);
    assert_eq!(group.to_string(), "- Does not provide any warranty.\n");
}

#[test]
fn limitations_no_patent_rights_alone() {
    let group = Limitations { no_patent_rights: true, ..Limitations::default() };
    assert_eq!(group.no_liability(), false);
    assert_eq!(group.no_trademark_rights(), false);
    assert_eq!(group.no_warranty(), false);
    assert_eq!(group.no_patent_rights(), true);
    assert_eq!(group.to_string(), "- Does not provide any rights in the patents of contributors.\n");
}

#[test]
fn mit_renders_its_three_groups() {
    let mit = from_id_ext("MIT").unwrap();
    assert_eq!(
        mit.permissions().to_string(),
        "- May be used for commercial purposes.\n\
         - May be distributed.\n\
         - May be modified.\n\
         - May be used for private purposes.\n"
    );
    assert_eq!(
        mit.conditions().to_string(),
        "- The license and copyright notice must be included with the software.\n"
    );
    assert_eq!(
        mit.limitations().to_string(),
        "- Includes a limitation of liability.\n- Does not provide any warranty.\n"
    );
}

#[test]
fn agpl_conditions_render_all_five_lines() {
    let agpl = from_id_ext("AGPL-3.0-only").unwrap();
    assert_eq!(
        agpl.conditions().to_string(),
        "- Source code must be made available when the software is distributed.\n\
         - Changes made to the code must be documented.\n\
         - The license and copyright notice must be included with the software.\n\
         - Users who interact with the software via network are given the right to receive a copy of the source code.\n\
         - Modifications must be released under the same license.\n"
    );
}

#[test]
fn cc0_limitations_render_all_four_lines() {
    let cc0 = from_id_ext("CC0-1.0").unwrap();
    assert_eq!(
        cc0.limitations().to_string(),
        "- Includes a limitation of liability.\n\
         - Does not grant trademark rights.\n\
         - Does not provide any warranty.\n\
         - Does not provide any rights in the patents of contributors.\n"
    );
}

#[test]
fn groups_are_ordered_by_their_facts_in_declared_order() {
    let none = Permissions::default();
    let last = Permissions { private_use: true, ..none };
    let first = Permissions { commercial_use: true, ..none };
    assert!(none < last);
    assert!(last < first);
    assert_eq!(first, first.clone());
    assert_ne!(first, last);
}
