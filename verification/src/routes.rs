//! The record-store surface around the relay: the person records the CRUD
//! routes carry, the route guide, and the fixed texts of the account
//! endpoints. The store calls themselves are I/O and live with the
//! connection loop; everything here is plain data and text.

use vstd::prelude::*;
use vstd::string::*;

verus! {

/// The payload accepted when a person is created or updated.
pub struct PersonData {
    pub name: String,
}

/// A stored person record: the payload plus the record key the store
/// assigned.
pub struct Person {
    pub name: String,
    pub id: String,
}

/// The route guide returned at the root path.
pub fn paths() -> (r: &'static str)
    ensures
        r@ == "\n-----------------------------------------------------------------------------------------------------------------------------------------\n        PATH                |           SAMPLE COMMAND\n-----------------------------------------------------------------------------------------------------------------------------------------\n/session: See session data  |  curl -X GET    -H \"Content-Type: application/json\"                      http://localhost:8080/session\n                            |\n/person/{id}:               |\n  Create a person           |  curl -X POST   -H \"Content-Type: application/json\" -d '{\"name\":\"John\"}' http://localhost:8080/person/one\n  Update a person           |  curl -X PUT    -H \"Content-Type: application/json\" -d '{\"name\":\"Jane\"}' http://localhost:8080/person/one\n  Get a person              |  curl -X GET    -H \"Content-Type: application/json\"                      http://localhost:8080/person/one\n  Delete a person           |  curl -X DELETE -H \"Content-Type: application/json\"                      http://localhost:8080/person/one\n                            |\n/people: List all people    |  curl -X GET    -H \"Content-Type: application/json\"                      http://localhost:8080/people\n\n/new_user:  Create a new record user\n/new_token: Get instructions for a new token if yours has expired"@,
{
    "\n-----------------------------------------------------------------------------------------------------------------------------------------\n        PATH                |           SAMPLE COMMAND\n-----------------------------------------------------------------------------------------------------------------------------------------\n/session: See session data  |  curl -X GET    -H \"Content-Type: application/json\"                      http://localhost:8080/session\n                            |\n/person/{id}:               |\n  Create a person           |  curl -X POST   -H \"Content-Type: application/json\" -d '{\"name\":\"John\"}' http://localhost:8080/person/one\n  Update a person           |  curl -X PUT    -H \"Content-Type: application/json\" -d '{\"name\":\"Jane\"}' http://localhost:8080/person/one\n  Get a person              |  curl -X GET    -H \"Content-Type: application/json\"                      http://localhost:8080/person/one\n  Delete a person           |  curl -X DELETE -H \"Content-Type: application/json\"                      http://localhost:8080/person/one\n                            |\n/people: List all people    |  curl -X GET    -H \"Content-Type: application/json\"                      http://localhost:8080/people\n\n/new_user:  Create a new record user\n/new_token: Get instructions for a new token if yours has expired"
}

/// The instructions returned when a token has expired.
pub fn get_new_token() -> (r: String)
    ensures
        r@ == "Need a new token? Use this command:\n\ncurl -X POST -H \"Accept: application/json\" -d '{\"ns\":\"test\",\"db\":\"test\",\"ac\":\"account\",\"user\":\"your_username\",\"pass\":\"your_password\"}' http://localhost:8000/signin\n\nThen log in with surreal sql --ns test --db test --pretty --token YOUR_TOKEN_HERE"@,
{
    String::from_str(
        "Need a new token? Use this command:\n\ncurl -X POST -H \"Accept: application/json\" -d '{\"ns\":\"test\",\"db\":\"test\",\"ac\":\"account\",\"user\":\"your_username\",\"pass\":\"your_password\"}' http://localhost:8000/signin\n\nThen log in with surreal sql --ns test --db test --pretty --token YOUR_TOKEN_HERE",
    )
}

/// What the new-user endpoint reports for a freshly signed-up account: the
/// generated credentials, the token, and the command that logs in with it.
pub open spec fn new_user_message_spec(name: Seq<char>, pass: Seq<char>, jwt: Seq<char>) -> Seq<
    char,
> {
    "New user created!\n\nName: "@ + name + "\nPassword: "@ + pass + "\nToken: "@ + jwt
        + "\n\nTo log in, use this command:\n\nsurreal sql --ns test --db test --pretty --token \""@
        + jwt + "\""@
}

/// Build the new-user report for the given generated credentials and the
/// token the store handed back.
pub fn new_user_message(name: &str, pass: &str, jwt: &str) -> (r: String)
    ensures
        r@ == new_user_message_spec(name@, pass@, jwt@),
{
    let mut r = String::from_str("New user created!\n\nName: ");
    r.append(name);
    r.append("\nPassword: ");
    r.append(pass);
    r.append("\nToken: ");
    r.append(jwt);
    r.append("\n\nTo log in, use this command:\n\nsurreal sql --ns test --db test --pretty --token \"");
    r.append(jwt);
    r.append("\"");
    proof {
        assert(r@ =~= new_user_message_spec(name@, pass@, jwt@));
    }
    r
}

} // verus!
