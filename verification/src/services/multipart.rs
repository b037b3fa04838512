//! Upload validation: checking a multipart field's declared content type.

use vstd::prelude::*;

use crate::errors::LibMultipartError;
use crate::errors::RouteError;
use crate::text::str_eq;
use vstd::string::StringExecFns;

verus! {

/// Whether the declared content type occurs among the accepted ones.
pub open spec fn allowed_type(ct: Option<&String>, allowed: Seq<&str>) -> bool {
    match ct {
        Option::Some(s) => exists|i: int| 0 <= i < allowed.len() && (#[trigger] allowed[i])@ == s@,
        Option::None => false,
    }
}

/// The name the rejection reports: the field's name, or empty when the
/// field carries none.
pub open spec fn reported_name(field_name: Option<&String>) -> Seq<char> {
    match field_name {
        Option::Some(n) => n@,
        Option::None => Seq::<char>::empty(),
    }
}

/// Accepts a field whose declared content type is among `content_types`;
/// everything else is rejected with the field's name.  The field is handed
/// in as its two relevant metadata values.
pub fn validate_content_type(
    content_type: Option<&String>,
    field_name: Option<&String>,
    content_types: &Vec<&str>,
) -> (r: Result<(), RouteError>)
    ensures
        r is Ok <==> allowed_type(content_type, content_types@),
        r matches Err(e) ==> (e matches RouteError::LibMultipartError(
            LibMultipartError::InvalidContentType(name),
        ) && name@ == reported_name(field_name)),
{
    if let Option::Some(s) = content_type {
        let n = content_types.len();
        let mut i: usize = 0;
        while i < n
            invariant
                0 <= i <= n,
                n == content_types@.len(),
                content_type == Option::Some(s),
                forall|j: int| 0 <= j < i ==> (#[trigger] content_types@[j])@ != s@,
            decreases n - i,
        {
            if str_eq(content_types[i], s.as_str()) {
                proof {
                    assert((content_types@[i as int])@ == s@);
                    assert(allowed_type(content_type, content_types@));
                }
                return Ok(());
            }
            i = i + 1;
        }
    }
    let name: String = match field_name {
        Option::Some(n) => n.clone(),
        Option::None => String::new(),
    };
    Err(RouteError::LibMultipartError(LibMultipartError::InvalidContentType(name)))
}

} // verus!
