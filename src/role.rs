use vstd::prelude::*;

verus! {

/// The closed set of account roles.
#[derive(Debug, Clone, Copy, PartialEq, Eq, Structural)]
pub enum UserType {
    Admin,
    Customer,
}

/// The wire form of a role.
pub open spec fn role_text(t: UserType) -> Seq<char> {
    match t {
        UserType::Admin => "admin"@,
        UserType::Customer => "customer"@,
    }
}

/// Refusal of a string that names no role.
#[derive(Debug, Clone, Copy, PartialEq, Eq, Structural)]
pub struct ParseUserTypeError;

impl UserType {
    /// Reads a role from its wire form; any other text is refused.
    pub fn from_str(s: &str) -> (r: Result<UserType, ParseUserTypeError>)
        ensures
            r matches Ok(t) ==> role_text(t) == s@,
            r is Err <==> (s@ != role_text(UserType::Admin) && s@ != role_text(UserType::Customer)),
    {
        let text = s.to_owned();
        if text == "admin".to_owned() {
            Ok(UserType::Admin)
        } else if text == "customer".to_owned() {
            Ok(UserType::Customer)
        } else {
            Err(ParseUserTypeError)
        }
    }

    /// The wire form of this role.
    pub fn to_string(&self) -> (r: String)
        ensures
            r@ == role_text(*self),
    {
        match self {
            UserType::Admin => "admin".to_owned(),
            UserType::Customer => "customer".to_owned(),
        }
    }
}

/// The two roles have distinct wire forms, so the mapping is one to one.
pub proof fn lemma_role_text_injective(a: UserType, b: UserType)
    ensures
        role_text(a) == role_text(b) <==> a == b,
{
    reveal_strlit("admin");
    reveal_strlit("customer");
    if a != b {
        assert(role_text(a)[0] != role_text(b)[0]);
    }
}

} // verus!
