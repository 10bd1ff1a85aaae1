//! The facts of each license that the catalog knows.

use vstd::prelude::*;
use crate::conditions::Conditions;
use crate::limitations::Limitations;
use crate::permissions::Permissions;
use crate::record::LicenseRecord;

verus! {

/// Academic Free License v3.0, `AFL-3.0`.
pub open spec fn afl_3_0() -> LicenseRecord {
    LicenseRecord {
        permissions: Permissions {
            commercial_use: true,
            distribution: true,
            modification: true,
            patent_rights: true,
            private_use: true,
        },
        conditions: Conditions {
            disclose_sources: false,
            document_changes: true,
            license_and_copyright_notice: true,
            network_use_is_distribution: false,
            same_license: false,
        },
        limitations: Limitations {
            no_liability: true,
            no_trademark_rights: true,
            no_warranty: true,
            no_patent_rights: false,
        },
    }
}

/// GNU Affero General Public License v3.0 only, `AGPL-3.0-only`.
pub open spec fn agpl_3_0_only() -> LicenseRecord {
    LicenseRecord {
        permissions: Permissions {
            commercial_use: true,
            distribution: true,
            modification: true,
            patent_rights: true,
            private_use: true,
        },
        conditions: Conditions {
            disclose_sources: true,
            document_changes: true,
            license_and_copyright_notice: true,
            network_use_is_distribution: true,
            same_license: true,
        },
        limitations: Limitations {
            no_liability: true,
            no_trademark_rights: false,
            no_warranty: true,
            no_patent_rights: false,
        },
    }
}

/// Apache License 2.0, `Apache-2.0`.
pub open spec fn apache_2_0() -> LicenseRecord {
    LicenseRecord {
        permissions: Permissions {
            commercial_use: true,
            distribution: true,
            modification: true,
            patent_rights: true,
            private_use: true,
        },
        conditions: Conditions {
            disclose_sources: false,
            document_changes: true,
            license_and_copyright_notice: true,
            network_use_is_distribution: false,
            same_license: false,
        },
        limitations: Limitations {
            no_liability: true,
            no_trademark_rights: true,
            no_warranty: true,
            no_patent_rights: false,
        },
    }
}

/// BSD Zero Clause License, `0BSD`.
pub open spec fn bsd_0() -> LicenseRecord {
    LicenseRecord {
        permissions: Permissions {
            commercial_use: true,
            distribution: true,
            modification: true,
            patent_rights: false,
            private_use: true,
        },
        conditions: Conditions {
            disclose_sources: false,
            document_changes: false,
            license_and_copyright_notice: false,
            network_use_is_distribution: false,
            same_license: false,
        },
        limitations: Limitations {
            no_liability: true,
            no_trademark_rights: false,
            no_warranty: true,
            no_patent_rights: false,
        },
    }
}

/// BSD 2-Clause "Simplified" License, `BSD-2-Clause`.
pub open spec fn bsd_2_clause() -> LicenseRecord {
    LicenseRecord {
        permissions: Permissions {
            commercial_use: true,
            distribution: true,
            modification: true,
            patent_rights: false,
            private_use: true,
        },
        conditions: Conditions {
            disclose_sources: false,
            document_changes: false,
            license_and_copyright_notice: true,
            network_use_is_distribution: false,
            same_license: false,
        },
        limitations: Limitations {
            no_liability: true,
            no_trademark_rights: false,
            no_warranty: true,
            no_patent_rights: false,
        },
    }
}

/// BSD 3-Clause "New" or "Revised" License, `BSD-3-Clause`.
pub open spec fn bsd_3_clause() -> LicenseRecord {
    LicenseRecord {
        permissions: Permissions {
            commercial_use: true,
            distribution: true,
            modification: true,
            patent_rights: false,
            private_use: true,
        },
        conditions: Conditions {
            disclose_sources: false,
            document_changes: false,
            license_and_copyright_notice: true,
            network_use_is_distribution: false,
            same_license: false,
        },
        limitations: Limitations {
            no_liability: true,
            no_trademark_rights: false,
            no_warranty: true,
            no_patent_rights: false,
        },
    }
}

/// BSD 3-Clause Clear License, `BSD-3-Clause-Clear`.
pub open spec fn bsd_3_clause_clear() -> LicenseRecord {
    LicenseRecord {
        permissions: Permissions {
            commercial_use: true,
            distribution: true,
            modification: true,
            patent_rights: false,
            private_use: true,
        },
        conditions: Conditions {
            disclose_sources: false,
            document_changes: false,
            license_and_copyright_notice: true,
            network_use_is_distribution: false,
            same_license: false,
        },
        limitations: Limitations {
            no_liability: true,
            no_trademark_rights: false,
            no_warranty: true,
            no_patent_rights: true,
        },
    }
}

/// Boost Software License 1.0, `BSL-1.0`.
pub open spec fn bsl_1_0() -> LicenseRecord {
    LicenseRecord {
        permissions: Permissions {
            commercial_use: true,
            distribution: true,
            modification: true,
            patent_rights: false,
            private_use: true,
        },
        conditions: Conditions {
            disclose_sources: false,
            document_changes: false,
            license_and_copyright_notice: true,
            network_use_is_distribution: false,
            same_license: false,
        },
        limitations: Limitations {
            no_liability: true,
            no_trademark_rights: false,
            no_warranty: true,
            no_patent_rights: false,
        },
    }
}

/// Creative Commons Zero v1.0 Universal, `CC0-1.0`.
pub open spec fn cc0_1_0() -> LicenseRecord {
    LicenseRecord {
        permissions: Permissions {
            commercial_use: true,
            distribution: true,
            modification: true,
            patent_rights: false,
            private_use: true,
        },
        conditions: Conditions {
            disclose_sources: false,
            document_changes: false,
            license_and_copyright_notice: false,
            network_use_is_distribution: false,
            same_license: false,
        },
        limitations: Limitations {
            no_liability: true,
            no_trademark_rights: true,
            no_warranty: true,
            no_patent_rights: true,
        },
    }
}

/// Educational Community License v2.0, `ECL-2.0`.
pub open spec fn ecl_2_0() -> LicenseRecord {
    LicenseRecord {
        permissions: Permissions {
            commercial_use: true,
            distribution: true,
            modification: true,
            patent_rights: true,
            private_use: true,
        },
        conditions: Conditions {
            disclose_sources: false,
            document_changes: true,
            license_and_copyright_notice: true,
            network_use_is_distribution: false,
            same_license: false,
        },
        limitations: Limitations {
            no_liability: true,
            no_trademark_rights: true,
            no_warranty: true,
            no_patent_rights: false,
        },
    }
}

/// GNU General Public License v3.0 only, `GPL-3.0-only`.
pub open spec fn gpl_3_0_only() -> LicenseRecord {
    LicenseRecord {
        permissions: Permissions {
            commercial_use: true,
            distribution: true,
            modification: true,
            patent_rights: true,
            private_use: true,
        },
        conditions: Conditions {
            disclose_sources: true,
            document_changes: true,
            license_and_copyright_notice: true,
            network_use_is_distribution: false,
            same_license: true,
        },
        limitations: Limitations {
            no_liability: true,
            no_trademark_rights: false,
            no_warranty: true,
            no_patent_rights: false,
        },
    }
}

/// GNU Lesser General Public License v3.0 only, `LGPL-3.0-only`.
pub open spec fn lgpl_3_0_only() -> LicenseRecord {
    LicenseRecord {
        permissions: Permissions {
            commercial_use: true,
            distribution: true,
            modification: true,
            patent_rights: true,
            private_use: true,
        },
        conditions: Conditions {
            disclose_sources: true,
            document_changes: true,
            license_and_copyright_notice: true,
            network_use_is_distribution: false,
            same_license: true,
        },
        limitations: Limitations {
            no_liability: true,
            no_trademark_rights: false,
            no_warranty: true,
            no_patent_rights: false,
        },
    }
}

/// MIT License, `MIT`.
pub open spec fn mit() -> LicenseRecord {
    LicenseRecord {
        permissions: Permissions {
            commercial_use: true,
            distribution: true,
            modification: true,
            patent_rights: false,
            private_use: true,
        },
        conditions: Conditions {
            disclose_sources: false,
            document_changes: false,
            license_and_copyright_notice: true,
            network_use_is_distribution: false,
            same_license: false,
        },
        limitations: Limitations {
            no_liability: true,
            no_trademark_rights: false,
            no_warranty: true,
            no_patent_rights: false,
        },
    }
}

/// Mozilla Public License 2.0, `MPL-2.0`.
pub open spec fn mpl_2_0() -> LicenseRecord {
    LicenseRecord {
        permissions: Permissions {
            commercial_use: true,
            distribution: true,
            modification: true,
            patent_rights: true,
            private_use: true,
        },
        conditions: Conditions {
            disclose_sources: true,
            document_changes: false,
            license_and_copyright_notice: true,
            network_use_is_distribution: false,
            same_license: true,
        },
        limitations: Limitations {
            no_liability: true,
            no_trademark_rights: true,
            no_warranty: true,
            no_patent_rights: false,
        },
    }
}

/// Microsoft Public License, `MS-PL`.
pub open spec fn ms_pl() -> LicenseRecord {
    LicenseRecord {
        permissions: Permissions {
            commercial_use: true,
            distribution: true,
            modification: true,
            patent_rights: true,
            private_use: true,
        },
        conditions: Conditions {
            disclose_sources: false,
            document_changes: false,
            license_and_copyright_notice: true,
            network_use_is_distribution: false,
            same_license: false,
        },
        limitations: Limitations {
            no_liability: false,
            no_trademark_rights: true,
            no_warranty: true,
            no_patent_rights: false,
        },
    }
}

/// Open Software License 3.0, `OSL-3.0`.
pub open spec fn osl_3_0() -> LicenseRecord {
    LicenseRecord {
        permissions: Permissions {
            commercial_use: true,
            distribution: true,
            modification: true,
            patent_rights: true,
            private_use: true,
        },
        conditions: Conditions {
            disclose_sources: true,
            document_changes: true,
            license_and_copyright_notice: true,
            network_use_is_distribution: true,
            same_license: true,
        },
        limitations: Limitations {
            no_liability: true,
            no_trademark_rights: true,
            no_warranty: true,
            no_patent_rights: false,
        },
    }
}

/// The Unlicense, `Unlicense`.
pub open spec fn unlicense() -> LicenseRecord {
    LicenseRecord {
        permissions: Permissions {
            commercial_use: true,
            distribution: true,
            modification: true,
            patent_rights: false,
            private_use: true,
        },
        conditions: Conditions {
            disclose_sources: false,
            document_changes: false,
            license_and_copyright_notice: false,
            network_use_is_distribution: false,
            same_license: false,
        },
        limitations: Limitations {
            no_liability: true,
            no_trademark_rights: false,
            no_warranty: true,
            no_patent_rights: false,
        },
    }
}

/// Do What The F*ck You Want To Public License, `WTFPL`.
pub open spec fn wtfpl() -> LicenseRecord {
    LicenseRecord {
        permissions: Permissions {
            commercial_use: true,
            distribution: true,
            modification: true,
            patent_rights: false,
            private_use: true,
        },
        conditions: Conditions {
            disclose_sources: false,
            document_changes: false,
            license_and_copyright_notice: false,
            network_use_is_distribution: false,
            same_license: false,
        },
        limitations: Limitations {
            no_liability: false,
            no_trademark_rights: false,
            no_warranty: false,
            no_patent_rights: false,
        },
    }
}

/// zlib License, `Zlib`.
pub open spec fn zlib() -> LicenseRecord {
    LicenseRecord {
        permissions: Permissions {
            commercial_use: true,
            distribution: true,
            modification: true,
            patent_rights: false,
            private_use: true,
        },
        conditions: Conditions {
            disclose_sources: false,
            document_changes: true,
            license_and_copyright_notice: true,
            network_use_is_distribution: false,
            same_license: false,
        },
        limitations: Limitations {
            no_liability: true,
            no_trademark_rights: false,
            no_warranty: true,
            no_patent_rights: false,
        },
    }
}

} // verus!
