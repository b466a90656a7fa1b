use vstd::prelude::*;

use crate::errors::ProgramError;
use crate::identity::Pubkey;

verus! {

/// Where a profile stands in the government's verification flow.
#[derive(Clone, Copy, PartialEq, Eq, Structural, Debug)]
pub enum VerificationStatus {
    Pending,
    Verified,
    Rejected,
}

/// The role a profile is registered under.
#[derive(Clone, Copy, PartialEq, Eq, Structural, Debug)]
pub enum UserRoles {
    Normal,
    Inspector,
    ConfirmityExpert,
    Government,
}

pub const MAX_USER_NAME_LEN: usize = 50;
pub const MAX_DATA_URI_LEN: usize = 200;
pub const MAX_ENCRYPTED_KEY_LEN: usize = 100;

/// A user profile, keyed in the store by (authority, user_name).
///
/// Text fields are byte strings, stored exactly as the caller supplied them;
/// the store's fixed record size caps their lengths (see [`UserV::wf`]).
#[derive(Debug, Clone, PartialEq, Eq)]
pub struct UserAccount {
    /// The identity that owns and signed for this profile.
    pub authority: Pubkey,
    pub user_name: Vec<u8>,
    pub public_data_uri: Vec<u8>,
    pub private_data_uri: Vec<u8>,
    pub encrypted_key_for_gov: Vec<u8>,
    pub encrypted_key_for_user: Vec<u8>,
    pub role: UserRoles,
    pub verification_status: VerificationStatus,
    /// When the verification decision was stamped, if it was.
    pub verified_at: Option<i64>,
    /// Who stamped the verification decision, if anyone.
    pub verified_by: Option<Pubkey>,
    pub created_at: i64,
    pub updated_at: i64,
}

/// The mathematical value of a [`UserAccount`].
#[verifier::ext_equal]
pub ghost struct UserV {
    pub authority: Pubkey,
    pub user_name: Seq<u8>,
    pub public_data_uri: Seq<u8>,
    pub private_data_uri: Seq<u8>,
    pub encrypted_key_for_gov: Seq<u8>,
    pub encrypted_key_for_user: Seq<u8>,
    pub role: UserRoles,
    pub verification_status: VerificationStatus,
    pub verified_at: Option<i64>,
    pub verified_by: Option<Pubkey>,
    pub created_at: i64,
    pub updated_at: i64,
}

impl UserV {
    /// The profile fits the store's fixed-size user record.
    pub open spec fn wf(self) -> bool {
        &&& 0 < self.user_name.len() <= MAX_USER_NAME_LEN
        &&& self.public_data_uri.len() <= MAX_DATA_URI_LEN
        &&& self.private_data_uri.len() <= MAX_DATA_URI_LEN
        &&& self.encrypted_key_for_gov.len() <= MAX_ENCRYPTED_KEY_LEN
        &&& self.encrypted_key_for_user.len() <= MAX_ENCRYPTED_KEY_LEN
    }
}

impl View for UserAccount {
    type V = UserV;

    open spec fn view(&self) -> UserV {
        UserV {
            authority: self.authority,
            user_name: self.user_name@,
            public_data_uri: self.public_data_uri@,
            private_data_uri: self.private_data_uri@,
            encrypted_key_for_gov: self.encrypted_key_for_gov@,
            encrypted_key_for_user: self.encrypted_key_for_user@,
            role: self.role,
            verification_status: self.verification_status,
            verified_at: self.verified_at,
            verified_by: self.verified_by,
            created_at: self.created_at,
            updated_at: self.updated_at,
        }
    }
}

impl DeepView for UserAccount {
    type V = UserV;

    open spec fn deep_view(&self) -> UserV {
        self.view()
    }
}

impl UserAccount {
    /// An owned copy of the profile, with the same mathematical value.
    pub fn duplicate(&self) -> (r: UserAccount)
        ensures
            r@ == self@,
    {
        let r = UserAccount {
            authority: self.authority,
            user_name: crate::bytes::clone_bytes(&self.user_name),
            public_data_uri: crate::bytes::clone_bytes(&self.public_data_uri),
            private_data_uri: crate::bytes::clone_bytes(&self.private_data_uri),
            encrypted_key_for_gov: crate::bytes::clone_bytes(&self.encrypted_key_for_gov),
            encrypted_key_for_user: crate::bytes::clone_bytes(&self.encrypted_key_for_user),
            role: self.role,
            verification_status: self.verification_status,
            verified_at: self.verified_at,
            verified_by: self.verified_by,
            created_at: self.created_at,
            updated_at: self.updated_at,
        };
        proof {
            assert(r@ =~= self@);
        }
        r
    }

    /// Overwrites every field of the profile with a fresh registration:
    /// verification starts out pending, unstamped, with the creation and
    /// update times both set to `timestamp`.
    pub fn initialize(
        &mut self,
        authority: Pubkey,
        user_name: Vec<u8>,
        public_data_uri: Vec<u8>,
        private_data_uri: Vec<u8>,
        encrypted_key_for_gov: Vec<u8>,
        encrypted_key_for_user: Vec<u8>,
        role: UserRoles,
        timestamp: i64,
    ) -> (r: Result<(), ProgramError>)
        ensures
            r is Ok,
            final(self)@ == (UserV {
                authority,
                user_name: user_name@,
                public_data_uri: public_data_uri@,
                private_data_uri: private_data_uri@,
                encrypted_key_for_gov: encrypted_key_for_gov@,
                encrypted_key_for_user: encrypted_key_for_user@,
                role,
                verification_status: VerificationStatus::Pending,
                verified_at: None::<i64>,
                verified_by: None::<Pubkey>,
                created_at: timestamp,
                updated_at: timestamp,
            }),
    {
        self.authority = authority;
        self.user_name = user_name;
        self.public_data_uri = public_data_uri;
        self.private_data_uri = private_data_uri;
        self.encrypted_key_for_gov = encrypted_key_for_gov;
        self.encrypted_key_for_user = encrypted_key_for_user;
        self.verification_status = VerificationStatus::Pending;
        self.verified_at = None;
        self.verified_by = None;
        self.role = role;
        self.created_at = timestamp;
        self.updated_at = timestamp;
        Ok(())
    }
}

} // verus!
