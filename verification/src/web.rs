//! The HTTP face of the accounts service: request shapes that carry routing
//! fields beside a step's data, and the texts built from request metadata.

use vstd::prelude::*;
use crate::auth::{RegisterStep2Request, RegisterStep3Request, RegisterStep4Request};
use crate::text::{lemma_split_nonempty, split_on, split_spec, trim_spec, trimmed};

verus! {

/// Step 2 with the session key that step 1 returned.
#[derive(Debug, Clone)]
pub struct RegisterStep2WithSessionRequest {
    pub session_key: String,
    pub inner: RegisterStep2Request,
}

/// Step 3 with the phone it is for.
#[derive(Debug, Clone)]
pub struct RegisterStep3WithPhoneRequest {
    pub phone: String,
    pub inner: RegisterStep3Request,
}

/// Step 4 with the phone it is for.
#[derive(Debug, Clone)]
pub struct RegisterStep4WithPhoneRequest {
    pub phone: String,
    pub inner: RegisterStep4Request,
}

/// A sign-out: the refresh token to revoke.
#[derive(Debug, Clone)]
pub struct SignOutRequest {
    pub refresh_token: String,
}

/// One failed validation rule of a request field, with its message if it has one.
#[derive(Debug, Clone)]
pub struct FieldError {
    pub field: String,
    pub message: Option<String>,
}

/// `field: message`, or `field: Invalid value for 'field'` without a message.
pub open spec fn field_error_text(e: FieldError) -> Seq<char> {
    e.field@ + ": "@ + match e.message {
        Some(m) => m@,
        None => "Invalid value for '"@ + e.field@ + "'"@,
    }
}

/// Texts joined with `, `.
pub open spec fn joined(s: Seq<Seq<char>>) -> Seq<char>
    decreases s.len(),
{
    if s.len() == 0 {
        Seq::empty()
    } else if s.len() == 1 {
        s[0]
    } else {
        joined(s.drop_last()) + ", "@ + s.last()
    }
}

pub open spec fn field_error_texts(errors: Seq<FieldError>) -> Seq<Seq<char>> {
    errors.map_values(|e: FieldError| field_error_text(e))
}

fn field_error_line(e: &FieldError) -> (r: String)
    ensures
        r@ == field_error_text(*e),
{
    let mut r = e.field.clone();
    r.append(": ");
    match &e.message {
        Some(m) => {
            r.append(m.as_str());
        },
        None => {
            r.append("Invalid value for '");
            r.append(e.field.as_str());
            r.append("'");
        },
    }
    r
}

/// The validation errors of a request as one line for the client, in the order
/// given: `field: message` entries joined with `, `.
pub fn format_validation_errors(errors: &Vec<FieldError>) -> (r: String)
    ensures
        r@ == joined(field_error_texts(errors@)),
{
    let mut out = String::new();
    let mut i: usize = 0;
    while i < errors.len()
        invariant
            i <= errors@.len(),
            out@ == joined(field_error_texts(errors@.take(i as int))),
        decreases errors@.len() - i,
    {
        let line = field_error_line(&errors[i]);
        let ghost prefix = field_error_texts(errors@.take(i as int));
        let ghost next = field_error_texts(errors@.take(i + 1));
        proof {
            assert(next.drop_last() =~= prefix);
            assert(next.last() == line@);
            assert(next.len() == i + 1);
        }
        if i > 0 {
            out.append(", ");
        } else {
            proof {
                assert(prefix.len() == 0);
            }
        }
        out.append(line.as_str());
        proof {
            if i == 0 {
                assert(out@ =~= line@);
            }
        }
        i += 1;
    }
    proof {
        assert(errors@.take(errors@.len() as int) =~= errors@);
    }
    out
}

/// The client address of a forwarded request: the first entry of the
/// comma-separated list, trimmed.
pub fn first_forwarded_address(value: &str) -> (r: String)
    ensures
        r@ == trim_spec(split_spec(value@, ',')[0]),
{
    let parts = split_on(value, ',');
    proof {
        lemma_split_nonempty(value@, ',');
        assert(parts@.len() == split_spec(value@, ',').len());
        assert(parts@[0]@ == split_spec(value@, ',')[0]);
    }
    trimmed(parts[0].as_str())
}

} // verus!
