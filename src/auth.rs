use crate::error::{ErrorKind, ExporterError};
use vstd::prelude::*;

verus! {

/// The message given when the service turns a login down.
pub open spec fn rejected_login_message() -> Seq<char> {
    "invalid email or password"@
}

/// Decides a login from what the login request came back with: the HTTP
/// status, or the transport error's message. Only status 200 logs in.
pub fn check_login(response: Result<u16, String>) -> (r: Result<(), ExporterError>)
    ensures
        r is Ok <==> response == Ok::<u16, String>(200u16),
        r matches Err(e) ==> e.kind == ErrorKind::Auth,
        response matches Err(m) ==> (r matches Err(e) && e.cause@ == m@),
        (response matches Ok(status) && status != 200) ==> (r matches Err(e) && e.cause@
            == rejected_login_message()),
{
    match response {
        Err(m) => Err(ExporterError { kind: ErrorKind::Auth, cause: m }),
        Ok(status) => {
            if status == 200 {
                Ok(())
            } else {
                Err(ExporterError::new(ErrorKind::Auth, "invalid email or password"))
            }
        },
    }
}

} // verus!
