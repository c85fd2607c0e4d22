//! Shared data model of the application around the engine: user roles and
//! their permission rule, record projections, and the bulk-import summary.

use vstd::prelude::*;

verus! {

broadcast use vstd::string::group_string_axioms;

/// A user's role, as stored in its canonical label form.
#[derive(Clone, Copy, Debug, PartialEq, Eq, Structural)]
pub enum Role {
    Admin,
    Teacher,
    ManagementFinance,
}

impl Role {
    /// The canonical storage label of this role.
    pub open spec fn spec_label(self) -> Seq<char> {
        match self {
            Role::Admin => "ADMIN"@,
            Role::Teacher => "TEACHER"@,
            Role::ManagementFinance => "MANAGEMENT_FINANCE"@,
        }
    }

    /// The role a storage label denotes; unknown labels fall back to the
    /// least-privileged role, `Teacher`.
    pub open spec fn spec_of_label(s: Seq<char>) -> Role {
        if s == "ADMIN"@ {
            Role::Admin
        } else if s == "TEACHER"@ {
            Role::Teacher
        } else if s == "MANAGEMENT_FINANCE"@ {
            Role::ManagementFinance
        } else {
            Role::Teacher
        }
    }

    /// Renders this role as its canonical storage label.
    pub fn to_string(&self) -> (s: String)
        ensures
            s@ == self.spec_label(),
    {
        match self {
            Role::Admin => "ADMIN".to_owned(),
            Role::Teacher => "TEACHER".to_owned(),
            Role::ManagementFinance => "MANAGEMENT_FINANCE".to_owned(),
        }
    }

    /// Parses a storage label; unknown labels yield `Teacher`.
    pub fn from(s: String) -> (r: Role)
        ensures
            r == Role::spec_of_label(s@),
    {
        proof {
            reveal_strlit("TEACHER");
            reveal_strlit("MANAGEMENT_FINANCE");
            assert("TEACHER"@.len() == 7);
            assert("MANAGEMENT_FINANCE"@.len() == 18);
        }
        if s == "ADMIN".to_owned() {
            Role::Admin
        } else if s == "MANAGEMENT_FINANCE".to_owned() {
            Role::ManagementFinance
        } else {
            Role::Teacher
        }
    }

    /// The projection rule of the student views: finance users are served
    /// the reduced finance profile, every other role the full education
    /// profile.
    pub fn sees_finance_projection(&self) -> (r: bool)
        ensures
            r == (*self matches Role::ManagementFinance),
    {
        match self {
            Role::ManagementFinance => true,
            _ => false,
        }
    }

    /// The permission rule of every guarded command: whether this role is
    /// one of the roles the command admits.
    pub fn is_permitted(&self, allowed: &[Role]) -> (r: bool)
        ensures
            r == allowed@.contains(*self),
    {
        let mut idx: usize = 0;
        while idx < allowed.len()
            invariant
                idx <= allowed@.len(),
                forall|j: int| 0 <= j < idx ==> allowed@[j] != *self,
            decreases allowed@.len() - idx,
        {
            if allowed[idx] == *self {
                assert(allowed@[idx as int] == *self);
                return true;
            }
            idx = idx + 1;
        }
        false
    }
}

/// Law: parsing a role's canonical label yields the role back.
pub proof fn lemma_role_label_round_trip(r: Role)
    ensures
        Role::spec_of_label(r.spec_label()) == r,
{
    reveal_strlit("ADMIN");
    reveal_strlit("TEACHER");
    reveal_strlit("MANAGEMENT_FINANCE");
    assert("ADMIN"@.len() == 5);
    assert("TEACHER"@.len() == 7);
    assert("MANAGEMENT_FINANCE"@.len() == 18);
    match r {
        Role::Admin => {
            assert(Role::spec_of_label("ADMIN"@) == Role::Admin);
        },
        Role::Teacher => {
            assert("TEACHER"@ != "ADMIN"@);
            assert(Role::spec_of_label("TEACHER"@) == Role::Teacher);
        },
        Role::ManagementFinance => {
            assert("MANAGEMENT_FINANCE"@ != "ADMIN"@);
            assert("MANAGEMENT_FINANCE"@ != "TEACHER"@);
            assert(Role::spec_of_label("MANAGEMENT_FINANCE"@) == Role::ManagementFinance);
        },
    }
}

/// The payload returned to a successfully authenticated client.
#[derive(Clone, Debug, PartialEq, Eq)]
pub struct AuthResponse {
    pub id: String,
    pub email: String,
    pub role: String,
}

/// A student record as the education views project it.
#[derive(Clone, Debug, PartialEq, Eq)]
pub struct Student {
    pub id: String,
    pub full_name: String,
    pub student_code: String,
    pub class_id: String,
    pub photo_path: Option<String>,
}

/// The reduced student projection served to finance users.
#[derive(Clone, Debug, PartialEq, Eq)]
pub struct StudentFinanceProfile {
    pub id: String,
    pub full_name: String,
    pub student_code: String,
    pub class_name: String,
    pub photo_path: Option<String>,
}

/// A staff directory entry.
#[derive(Clone, Debug, PartialEq, Eq)]
pub struct StaffProfile {
    pub id: String,
    pub full_name: String,
    pub staff_code: String,
    pub campus_email: String,
    pub position_title: String,
    pub department: Option<String>,
    pub photo_path: Option<String>,
    pub status: String,
}

/// The summary of a bulk student import.
#[derive(Clone, Debug, PartialEq, Eq)]
pub struct ImportResult {
    pub success: bool,
    pub rows_processed: usize,
    pub errors: Vec<String>,
}

impl ImportResult {
    /// Summarizes an import run under the all-or-nothing rule: any row
    /// error rolls the whole batch back, so a failed import reports zero
    /// processed rows alongside the collected errors.
    pub fn new(rows_processed: usize, errors: Vec<String>) -> (r: ImportResult)
        ensures
            r.success <==> errors@.len() == 0,
            r.errors@ == errors@,
            r.rows_processed == (if errors@.len() == 0 {
                rows_processed as int
            } else {
                0
            }),
    {
        if errors.len() == 0 {
            ImportResult { success: true, rows_processed, errors }
        } else {
            ImportResult { success: false, rows_processed: 0, errors }
        }
    }
}

} // verus!
