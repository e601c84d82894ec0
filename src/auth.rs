//! The decisions of sign-in and sign-up, apart from the user store that
//! answers their lookups.
use vstd::prelude::*;

verus! {

/// The answer to a sign-in or sign-up request.
pub struct AuthReply {
    pub success: bool,
    pub message: String,
    pub user_id: Option<String>,
}

/// What the user store holds of one user that sign-in reads.
pub struct StoredUser {
    pub id: String,
    pub password: String,
}

/// A refusal with the given message.
pub fn refusal(message: &str) -> (r: AuthReply)
    ensures
        !r.success,
        r.message@ == message@,
        r.user_id is None,
{
    AuthReply { success: false, message: message.to_string(), user_id: None }
}

/// A refusal whose message is `prefix` followed by an error's text.
pub fn refusal_with(prefix: &str, error: &str) -> (r: AuthReply)
    ensures
        !r.success,
        r.message@ == prefix@ + error@,
        r.user_id is None,
{
    let mut m = String::from_str(prefix);
    m.append(error);
    AuthReply { success: false, message: m, user_id: None }
}

/// The answer to a sign-in, given what the lookup by email gave and the
/// password offered: success with the user's id only where a user was found
/// and the password is the stored one.
pub fn sign_in_reply(lookup: Result<Option<StoredUser>, String>, password: &str) -> (r: AuthReply)
    ensures
        match lookup {
            Ok(Some(user)) => if user.password@ == password@ {
                r.success && r.message@ == "Authentication successful"@ && r.user_id == Some(user.id)
            } else {
                !r.success && r.message@ == "Incorrect password"@ && r.user_id is None
            },
            Ok(None) => !r.success && r.message@ == "User not found"@ && r.user_id is None,
            Err(e) => !r.success && r.message@ == "Database error: "@ + e@ && r.user_id is None,
        },
{
    match lookup {
        Ok(Some(user)) => {
            let offered = password.to_string();
            if user.password == offered {
                AuthReply {
                    success: true,
                    message: String::from_str("Authentication successful"),
                    user_id: Some(user.id),
                }
            } else {
                refusal("Incorrect password")
            }
        },
        Ok(None) => refusal("User not found"),
        Err(e) => refusal_with("Database error: ", e.as_str()),
    }
}

/// Whether a sign-up may go on, given whether the lookup by email found a
/// user: `None` where it may, else the refusal to answer with.
pub fn sign_up_check(lookup: Result<bool, String>) -> (r: Option<AuthReply>)
    ensures
        match lookup {
            Ok(false) => r is None,
            Ok(true) => r is Some && !r->0.success && r->0.message@ == "User already exists"@
                && r->0.user_id is None,
            Err(e) => r is Some && !r->0.success && r->0.message@ == "Database error: "@ + e@
                && r->0.user_id is None,
        },
{
    match lookup {
        Ok(false) => None,
        Ok(true) => Some(refusal("User already exists")),
        Err(e) => Some(refusal_with("Database error: ", e.as_str())),
    }
}

/// The answer to a sign-up, given how storing the new user went.
pub fn sign_up_reply(stored: Result<(), String>, user_id: String) -> (r: AuthReply)
    ensures
        match stored {
            Ok(_) => r.success && r.message@ == "User registered successfully"@
                && r.user_id == Some(user_id),
            Err(e) => !r.success && r.message@ == "Failed to register user: "@ + e@
                && r.user_id is None,
        },
{
    match stored {
        Ok(_) => AuthReply {
            success: true,
            message: String::from_str("User registered successfully"),
            user_id: Some(user_id),
        },
        Err(e) => refusal_with("Failed to register user: ", e.as_str()),
    }
}

} // verus!
