//! Lookup of a license by its identifier.

use vstd::prelude::*;
use crate::catalog::{
    afl_3_0, agpl_3_0_only, apache_2_0, bsd_0, bsd_2_clause, bsd_3_clause, bsd_3_clause_clear,
    bsl_1_0, cc0_1_0, ecl_2_0, gpl_3_0_only, lgpl_3_0_only, mit, mpl_2_0, ms_pl, osl_3_0,
    unlicense, wtfpl, zlib,
};
use crate::conditions::Conditions;
use crate::limitations::Limitations;
use crate::permissions::Permissions;
use crate::record::LicenseRecord;
use crate::text::str_eq;

verus! {

/// The identifiers that the catalog knows, as they must be written.
pub open spec fn known_ids() -> Seq<Seq<char>> {
    seq![
        "AFL-3.0"@,
        "AGPL-3.0-only"@,
        "Apache-2.0"@,
        "0BSD"@,
        "BSD-2-Clause"@,
        "BSD-3-Clause"@,
        "BSD-3-Clause-Clear"@,
        "BSL-1.0"@,
        "CC0-1.0"@,
        "ECL-2.0"@,
        "GPL-3.0-only"@,
        "LGPL-3.0-only"@,
        "MIT"@,
        "MPL-2.0"@,
        "MS-PL"@,
        "OSL-3.0"@,
        "Unlicense"@,
        "WTFPL"@,
        "Zlib"@,
    ]
}

/// The record that the catalog holds for `id`, if it holds one. Identifiers are
/// compared character by character: case counts, and so does every space.
pub open spec fn lookup(id: Seq<char>) -> Option<LicenseRecord> {
    if id == "AFL-3.0"@ {
        Some(afl_3_0())
    } else if id == "AGPL-3.0-only"@ {
        Some(agpl_3_0_only())
    } else if id == "Apache-2.0"@ {
        Some(apache_2_0())
    } else if id == "0BSD"@ {
        Some(bsd_0())
    } else if id == "BSD-2-Clause"@ {
        Some(bsd_2_clause())
    } else if id == "BSD-3-Clause"@ {
        Some(bsd_3_clause())
    } else if id == "BSD-3-Clause-Clear"@ {
        Some(bsd_3_clause_clear())
    } else if id == "BSL-1.0"@ {
        Some(bsl_1_0())
    } else if id == "CC0-1.0"@ {
        Some(cc0_1_0())
    } else if id == "ECL-2.0"@ {
        Some(ecl_2_0())
    } else if id == "GPL-3.0-only"@ {
        Some(gpl_3_0_only())
    } else if id == "LGPL-3.0-only"@ {
        Some(lgpl_3_0_only())
    } else if id == "MIT"@ {
        Some(mit())
    } else if id == "MPL-2.0"@ {
        Some(mpl_2_0())
    } else if id == "MS-PL"@ {
        Some(ms_pl())
    } else if id == "OSL-3.0"@ {
        Some(osl_3_0())
    } else if id == "Unlicense"@ {
        Some(unlicense())
    } else if id == "WTFPL"@ {
        Some(wtfpl())
    } else if id == "Zlib"@ {
        Some(zlib())
    } else {
        None
    }
}

/// The record of the license that `id` names, or `None` where the catalog knows
/// no license of exactly that name.
pub fn from_id_ext(id: &str) -> (record: Option<LicenseRecord>)
    ensures
        record == lookup(id@),
        record is Some <==> known_ids().contains(id@),
{
    proof {
        lemma_known_exactly_when_found(id@);
    }
    if str_eq(id, "AFL-3.0") {
        Some(
            LicenseRecord {
                permissions: Permissions {
                    commercial_use: true,
                    distribution: true,
                    modification: true,
                    patent_rights: true,
                    private_use: true,
                },
                conditions: Conditions {
                    document_changes: true,
                    license_and_copyright_notice: true,
                    ..Conditions::default()
                },
                limitations: Limitations {
                    no_liability: true,
                    no_trademark_rights: true,
                    no_warranty: true,
                    ..Limitations::default()
                },
            },
        )
    } else if str_eq(id, "AGPL-3.0-only") {
        Some(
            LicenseRecord {
                permissions: Permissions {
                    commercial_use: true,
                    distribution: true,
                    modification: true,
                    patent_rights: true,
                    private_use: true,
                },
                conditions: Conditions {
                    disclose_sources: true,
                    document_changes: true,
                    license_and_copyright_notice: true,
                    network_use_is_distribution: true,
                    same_license: true,
                },
                limitations: Limitations {
                    no_liability: true,
                    no_warranty: true,
                    ..Limitations::default()
                },
            },
        )
    } else if str_eq(id, "Apache-2.0") {
        Some(
            LicenseRecord {
                permissions: Permissions {
                    commercial_use: true,
                    distribution: true,
                    modification: true,
                    patent_rights: true,
                    private_use: true,
                },
                conditions: Conditions {
                    document_changes: true,
                    license_and_copyright_notice: true,
                    ..Conditions::default()
                },
                limitations: Limitations {
                    no_liability: true,
                    no_trademark_rights: true,
                    no_warranty: true,
                    ..Limitations::default()
                },
            },
        )
    } else if str_eq(id, "0BSD") {
        Some(
            LicenseRecord {
                permissions: Permissions {
                    commercial_use: true,
                    distribution: true,
                    modification: true,
                    private_use: true,
                    ..Permissions::default()
                },
                conditions: Conditions::default(),
                limitations: Limitations {
                    no_liability: true,
                    no_warranty: true,
                    ..Limitations::default()
                },
            },
        )
    } else if str_eq(id, "BSD-2-Clause") {
        Some(
            LicenseRecord {
                permissions: Permissions {
                    commercial_use: true,
                    distribution: true,
                    modification: true,
                    private_use: true,
                    ..Permissions::default()
                },
                conditions: Conditions {
                    license_and_copyright_notice: true,
                    ..Conditions::default()
                },
                limitations: Limitations {
                    no_liability: true,
                    no_warranty: true,
                    ..Limitations::default()
                },
            },
        )
    } else if str_eq(id, "BSD-3-Clause") {
        Some(
            LicenseRecord {
                permissions: Permissions {
                    commercial_use: true,
                    distribution: true,
                    modification: true,
                    private_use: true,
                    ..Permissions::default()
                },
                conditions: Conditions {
                    license_and_copyright_notice: true,
                    ..Conditions::default()
                },
                limitations: Limitations {
                    no_liability: true,
                    no_warranty: true,
                    ..Limitations::default()
                },
            },
        )
    } else if str_eq(id, "BSD-3-Clause-Clear") {
        Some(
            LicenseRecord {
                permissions: Permissions {
                    commercial_use: true,
                    distribution: true,
                    modification: true,
                    private_use: true,
                    ..Permissions::default()
                },
                conditions: Conditions {
                    license_and_copyright_notice: true,
                    ..Conditions::default()
                },
                limitations: Limitations {
                    no_liability: true,
                    no_warranty: true,
                    no_patent_rights: true,
                    ..Limitations::default()
                },
            },
        )
    } else if str_eq(id, "BSL-1.0") {
        Some(
            LicenseRecord {
                permissions: Permissions {
                    commercial_use: true,
                    distribution: true,
                    modification: true,
                    private_use: true,
                    ..Permissions::default()
                },
                conditions: Conditions {
                    license_and_copyright_notice: true,
                    ..Conditions::default()
                },
                limitations: Limitations {
                    no_liability: true,
                    no_warranty: true,
                    ..Limitations::default()
                },
            },
        )
    } else if str_eq(id, "CC0-1.0") {
        Some(
            LicenseRecord {
                permissions: Permissions {
                    commercial_use: true,
                    distribution: true,
                    modification: true,
                    private_use: true,
                    ..Permissions::default()
                },
                conditions: Conditions::default(),
                limitations: Limitations {
                    no_liability: true,
                    no_trademark_rights: true,
                    no_warranty: true,
                    no_patent_rights: true,
                },
            },
        )
    } else if str_eq(id, "ECL-2.0") {
        Some(
            LicenseRecord {
                permissions: Permissions {
                    commercial_use: true,
                    distribution: true,
                    modification: true,
                    patent_rights: true,
                    private_use: true,
                },
                conditions: Conditions {
                    document_changes: true,
                    license_and_copyright_notice: true,
                    ..Conditions::default()
                },
                limitations: Limitations {
                    no_liability: true,
                    no_trademark_rights: true,
                    no_warranty: true,
                    ..Limitations::default()
                },
            },
        )
    } else if str_eq(id, "GPL-3.0-only") {
        Some(
            LicenseRecord {
                permissions: Permissions {
                    commercial_use: true,
                    distribution: true,
                    modification: true,
                    patent_rights: true,
                    private_use: true,
                },
                conditions: Conditions {
                    disclose_sources: true,
                    document_changes: true,
                    license_and_copyright_notice: true,
                    same_license: true,
                    ..Conditions::default()
                },
                limitations: Limitations {
                    no_liability: true,
                    no_warranty: true,
                    ..Limitations::default()
                },
            },
        )
    } else if str_eq(id, "LGPL-3.0-only") {
        Some(
            LicenseRecord {
                permissions: Permissions {
                    commercial_use: true,
                    distribution: true,
                    modification: true,
                    patent_rights: true,
                    private_use: true,
                },
                conditions: Conditions {
                    disclose_sources: true,
                    document_changes: true,
                    license_and_copyright_notice: true,
                    same_license: true,
                    ..Conditions::default()
                },
                limitations: Limitations {
                    no_liability: true,
                    no_warranty: true,
                    ..Limitations::default()
                },
            },
        )
    } else if str_eq(id, "MIT") {
        Some(
            LicenseRecord {
                permissions: Permissions {
                    commercial_use: true,
                    distribution: true,
                    modification: true,
                    private_use: true,
                    ..Permissions::default()
                },
                conditions: Conditions {
                    license_and_copyright_notice: true,
                    ..Conditions::default()
                },
                limitations: Limitations {
                    no_liability: true,
                    no_warranty: true,
                    ..Limitations::default()
                },
            },
        )
    } else if str_eq(id, "MPL-2.0") {
        Some(
            LicenseRecord {
                permissions: Permissions {
                    commercial_use: true,
                    distribution: true,
                    modification: true,
                    patent_rights: true,
                    private_use: true,
                },
                conditions: Conditions {
                    disclose_sources: true,
                    license_and_copyright_notice: true,
                    same_license: true,
                    ..Conditions::default()
                },
                limitations: Limitations {
                    no_liability: true,
                    no_trademark_rights: true,
                    no_warranty: true,
                    ..Limitations::default()
                },
            },
        )
    } else if str_eq(id, "MS-PL") {
        Some(
            LicenseRecord {
                permissions: Permissions {
                    commercial_use: true,
                    distribution: true,
                    modification: true,
                    patent_rights: true,
                    private_use: true,
                },
                conditions: Conditions {
                    license_and_copyright_notice: true,
                    ..Conditions::default()
                },
                limitations: Limitations {
                    no_trademark_rights: true,
                    no_warranty: true,
                    ..Limitations::default()
                },
            },
        )
    } else if str_eq(id, "OSL-3.0") {
        Some(
            LicenseRecord {
                permissions: Permissions {
                    commercial_use: true,
                    distribution: true,
                    modification: true,
                    patent_rights: true,
                    private_use: true,
                },
                conditions: Conditions {
                    disclose_sources: true,
                    document_changes: true,
                    license_and_copyright_notice: true,
                    network_use_is_distribution: true,
                    same_license: true,
                },
                limitations: Limitations {
                    no_liability: true,
                    no_trademark_rights: true,
                    no_warranty: true,
                    ..Limitations::default()
                },
            },
        )
    } else if str_eq(id, "Unlicense") {
        Some(
            LicenseRecord {
                permissions: Permissions {
                    commercial_use: true,
                    distribution: true,
                    modification: true,
                    private_use: true,
                    ..Permissions::default()
                },
                conditions: Conditions::default(),
                limitations: Limitations {
                    no_liability: true,
                    no_warranty: true,
                    ..Limitations::default()
                },
            },
        )
    } else if str_eq(id, "WTFPL") {
        Some(
            LicenseRecord {
                permissions: Permissions {
                    commercial_use: true,
                    distribution: true,
                    modification: true,
                    private_use: true,
                    ..Permissions::default()
                },
                conditions: Conditions::default(),
                limitations: Limitations::default(),
            },
        )
    } else if str_eq(id, "Zlib") {
        Some(
            LicenseRecord {
                permissions: Permissions {
                    commercial_use: true,
                    distribution: true,
                    modification: true,
                    private_use: true,
                    ..Permissions::default()
                },
                conditions: Conditions {
                    document_changes: true,
                    license_and_copyright_notice: true,
                    ..Conditions::default()
                },
                limitations: Limitations {
                    no_liability: true,
                    no_warranty: true,
                    ..Limitations::default()
                },
            },
        )
    } else {
        None
    }
}

/// The catalog holds a record for an identifier exactly when the identifier is
/// one of the known ones.
pub proof fn lemma_known_exactly_when_found(id: Seq<char>)
    ensures
        lookup(id) is Some <==> known_ids().contains(id),
{
    let ids = known_ids();
    if lookup(id) is Some {
        if id == "AFL-3.0"@ {
            assert(ids[0] == id);
        } else if id == "AGPL-3.0-only"@ {
            assert(ids[1] == id);
        } else if id == "Apache-2.0"@ {
            assert(ids[2] == id);
        } else if id == "0BSD"@ {
            assert(ids[3] == id);
        } else if id == "BSD-2-Clause"@ {
            assert(ids[4] == id);
        } else if id == "BSD-3-Clause"@ {
            assert(ids[5] == id);
        } else if id == "BSD-3-Clause-Clear"@ {
            assert(ids[6] == id);
        } else if id == "BSL-1.0"@ {
            assert(ids[7] == id);
        } else if id == "CC0-1.0"@ {
            assert(ids[8] == id);
        } else if id == "ECL-2.0"@ {
            assert(ids[9] == id);
        } else if id == "GPL-3.0-only"@ {
            assert(ids[10] == id);
        } else if id == "LGPL-3.0-only"@ {
            assert(ids[11] == id);
        } else if id == "MIT"@ {
            assert(ids[12] == id);
        } else if id == "MPL-2.0"@ {
            assert(ids[13] == id);
        } else if id == "MS-PL"@ {
            assert(ids[14] == id);
        } else if id == "OSL-3.0"@ {
            assert(ids[15] == id);
        } else if id == "Unlicense"@ {
            assert(ids[16] == id);
        } else if id == "WTFPL"@ {
            assert(ids[17] == id);
        } else if id == "Zlib"@ {
            assert(ids[18] == id);
        }
    }
}

/// The length of each known identifier, its first character and, where it has
/// one, its fifth: enough to tell any two of them apart.
pub proof fn lemma_marks_of_known_ids()
    ensures
        "AFL-3.0"@.len() == 7,
        "AFL-3.0"@[0] == 'A',
        "AFL-3.0"@[4] == '3',
        "AGPL-3.0-only"@.len() == 13,
        "AGPL-3.0-only"@[0] == 'A',
        "AGPL-3.0-only"@[4] == '-',
        "Apache-2.0"@.len() == 10,
        "Apache-2.0"@[0] == 'A',
        "Apache-2.0"@[4] == 'h',
        "0BSD"@.len() == 4,
        "0BSD"@[0] == '0',
        "BSD-2-Clause"@.len() == 12,
        "BSD-2-Clause"@[0] == 'B',
        "BSD-2-Clause"@[4] == '2',
        "BSD-3-Clause"@.len() == 12,
        "BSD-3-Clause"@[0] == 'B',
        "BSD-3-Clause"@[4] == '3',
        "BSD-3-Clause-Clear"@.len() == 18,
        "BSD-3-Clause-Clear"@[0] == 'B',
        "BSD-3-Clause-Clear"@[4] == '3',
        "BSL-1.0"@.len() == 7,
        "BSL-1.0"@[0] == 'B',
        "BSL-1.0"@[4] == '1',
        "CC0-1.0"@.len() == 7,
        "CC0-1.0"@[0] == 'C',
        "CC0-1.0"@[4] == '1',
        "ECL-2.0"@.len() == 7,
        "ECL-2.0"@[0] == 'E',
        "ECL-2.0"@[4] == '2',
        "GPL-3.0-only"@.len() == 12,
        "GPL-3.0-only"@[0] == 'G',
        "GPL-3.0-only"@[4] == '3',
        "LGPL-3.0-only"@.len() == 13,
        "LGPL-3.0-only"@[0] == 'L',
        "LGPL-3.0-only"@[4] == '-',
        "MIT"@.len() == 3,
        "MIT"@[0] == 'M',
        "MPL-2.0"@.len() == 7,
        "MPL-2.0"@[0] == 'M',
        "MPL-2.0"@[4] == '2',
        "MS-PL"@.len() == 5,
        "MS-PL"@[0] == 'M',
        "MS-PL"@[4] == 'L',
        "OSL-3.0"@.len() == 7,
        "OSL-3.0"@[0] == 'O',
        "OSL-3.0"@[4] == '3',
        "Unlicense"@.len() == 9,
        "Unlicense"@[0] == 'U',
        "Unlicense"@[4] == 'c',
        "WTFPL"@.len() == 5,
        "WTFPL"@[0] == 'W',
        "WTFPL"@[4] == 'L',
        "Zlib"@.len() == 4,
        "Zlib"@[0] == 'Z',
{
    reveal_strlit("AFL-3.0");
    reveal_strlit("AGPL-3.0-only");
    reveal_strlit("Apache-2.0");
    reveal_strlit("0BSD");
    reveal_strlit("BSD-2-Clause");
    reveal_strlit("BSD-3-Clause");
    reveal_strlit("BSD-3-Clause-Clear");
    reveal_strlit("BSL-1.0");
    reveal_strlit("CC0-1.0");
    reveal_strlit("ECL-2.0");
    reveal_strlit("GPL-3.0-only");
    reveal_strlit("LGPL-3.0-only");
    reveal_strlit("MIT");
    reveal_strlit("MPL-2.0");
    reveal_strlit("MS-PL");
    reveal_strlit("OSL-3.0");
    reveal_strlit("Unlicense");
    reveal_strlit("WTFPL");
    reveal_strlit("Zlib");
}

/// No two of the known identifiers are the same.
pub proof fn lemma_known_ids_differ(i: int, j: int)
    requires
        0 <= i < j < known_ids().len(),
    ensures
        known_ids()[i] != known_ids()[j],
{
    lemma_marks_of_known_ids();
}

/// Each known identifier is found, and what is found is the record of the
/// license of that name.
pub proof fn lemma_every_known_id_found()
    ensures
        lookup("AFL-3.0"@) == Some(afl_3_0()),
        lookup("AGPL-3.0-only"@) == Some(agpl_3_0_only()),
        lookup("Apache-2.0"@) == Some(apache_2_0()),
        lookup("0BSD"@) == Some(bsd_0()),
        lookup("BSD-2-Clause"@) == Some(bsd_2_clause()),
        lookup("BSD-3-Clause"@) == Some(bsd_3_clause()),
        lookup("BSD-3-Clause-Clear"@) == Some(bsd_3_clause_clear()),
        lookup("BSL-1.0"@) == Some(bsl_1_0()),
        lookup("CC0-1.0"@) == Some(cc0_1_0()),
        lookup("ECL-2.0"@) == Some(ecl_2_0()),
        lookup("GPL-3.0-only"@) == Some(gpl_3_0_only()),
        lookup("LGPL-3.0-only"@) == Some(lgpl_3_0_only()),
        lookup("MIT"@) == Some(mit()),
        lookup("MPL-2.0"@) == Some(mpl_2_0()),
        lookup("MS-PL"@) == Some(ms_pl()),
        lookup("OSL-3.0"@) == Some(osl_3_0()),
        lookup("Unlicense"@) == Some(unlicense()),
        lookup("WTFPL"@) == Some(wtfpl()),
        lookup("Zlib"@) == Some(zlib()),
{
    lemma_marks_of_known_ids();
}

} // verus!
