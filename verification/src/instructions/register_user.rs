use vstd::prelude::*;

use crate::errors::{ErrorCode, ProgramError};
use crate::identity::Pubkey;
use crate::state::user::{
    UserAccount, UserRoles, UserV, VerificationStatus, MAX_DATA_URI_LEN, MAX_ENCRYPTED_KEY_LEN,
    MAX_USER_NAME_LEN,
};

verus! {

/// The accounts a profile registration touches: the signer becomes the
/// profile's authority and pays for the new record.
pub struct RegisterUser {
    pub user_signer: Pubkey,
}

/// Creates a user profile for the signing identity.
///
/// The name must be non-empty and at most 50 bytes; the remaining text
/// fields must fit the store's fixed record, which the platform enforces
/// before the request reaches this handler. The profile starts pending
/// verification, timestamped with the platform clock reading `now`.
pub fn handler(
    ctx: &RegisterUser,
    user_name: Vec<u8>,
    public_data_uri: Vec<u8>,
    private_data_uri: Vec<u8>,
    encrypted_key_for_gov: Vec<u8>,
    encrypted_key_for_user: Vec<u8>,
    role: UserRoles,
    now: i64,
) -> (r: Result<UserAccount, ProgramError>)
    requires
        public_data_uri@.len() <= MAX_DATA_URI_LEN,
        private_data_uri@.len() <= MAX_DATA_URI_LEN,
        encrypted_key_for_gov@.len() <= MAX_ENCRYPTED_KEY_LEN,
        encrypted_key_for_user@.len() <= MAX_ENCRYPTED_KEY_LEN,
    ensures
        match r {
            Ok(u) => {
                &&& 0 < user_name@.len() <= MAX_USER_NAME_LEN
                &&& u@ == (UserV {
                    authority: ctx.user_signer,
                    user_name: user_name@,
                    public_data_uri: public_data_uri@,
                    private_data_uri: private_data_uri@,
                    encrypted_key_for_gov: encrypted_key_for_gov@,
                    encrypted_key_for_user: encrypted_key_for_user@,
                    role,
                    verification_status: VerificationStatus::Pending,
                    verified_at: None::<i64>,
                    verified_by: None::<Pubkey>,
                    created_at: now,
                    updated_at: now,
                })
            },
            Err(e) => {
                &&& e == ProgramError::Code(ErrorCode::InvalidUserName)
                &&& !(0 < user_name@.len() <= MAX_USER_NAME_LEN)
            },
        },
{
    if user_name.len() == 0 || user_name.len() > MAX_USER_NAME_LEN {
        return Err(ProgramError::Code(ErrorCode::InvalidUserName));
    }
    Ok(UserAccount {
        authority: ctx.user_signer,
        user_name,
        public_data_uri,
        private_data_uri,
        encrypted_key_for_gov,
        encrypted_key_for_user,
        role,
        verification_status: VerificationStatus::Pending,
        verified_at: None,
        verified_by: None,
        created_at: now,
        updated_at: now,
    })
}

} // verus!
