use vstd::prelude::*;
use vstd::string::StringExecFns;
use crate::command::Command;

verus! {

/// The account the exporter logs in with; fixed for the life of the process.
#[derive(Clone, Debug)]
pub struct Credentials {
    pub username: String,
    pub password: String,
}

impl Credentials {
    /// `auth <username> <password>;<command>`
    pub open spec fn spec_request_body(self, command: Command) -> Seq<char> {
        "auth "@ + self.username@ + " "@ + self.password@ + ";"@ + command.spec_token()
    }

    /// The body of the one request that asks the node for `command`'s statistics.
    pub fn request_body(&self, command: Command) -> (r: String)
        ensures
            r@ == self.spec_request_body(command),
    {
        let mut body = "auth ".to_owned();
        body.append(self.username.as_str());
        body.append(" ");
        body.append(self.password.as_str());
        body.append(";");
        body.append(command.token());
        proof {
            assert(body@ =~= self.spec_request_body(command));
        }
        body
    }
}

} // verus!
