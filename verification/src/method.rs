//! The request methods the server answers, and what it says to the others.

use vstd::prelude::*;
use vstd::string::StringExecFns;
use crate::response::{Body, Content, Reply, METHOD_NOT_ALLOWED};
use crate::text::same_text;

verus! {

/// A request method the server answers.
#[derive(Debug, Copy, Clone, PartialEq, Eq, Structural)]
pub enum AllowedMethod {
    GET,
    HEAD,
    POST,
}

/// Every allowed method, in the order they are named to clients.
pub const ALL_ALLOWED: [AllowedMethod; 3] = [
    AllowedMethod::GET,
    AllowedMethod::HEAD,
    AllowedMethod::POST,
];

/// The names of some methods, separated by a comma and a space.
pub open spec fn joined_names(methods: Seq<AllowedMethod>) -> Seq<char>
    decreases methods.len(),
{
    if methods.len() == 0 {
        Seq::empty()
    } else if methods.len() == 1 {
        methods[0].name()
    } else {
        joined_names(methods.drop_last()) + ", "@ + methods.last().name()
    }
}

/// The text that tells a client which methods are allowed.
pub open spec fn not_allowed_message() -> Seq<char> {
    "Only "@ + joined_names(ALL_ALLOWED@) + " requests are allowed to thebestofcmu."@
}

impl AllowedMethod {
    /// The name of the method, as it stands in a request.
    pub open spec fn name(&self) -> Seq<char> {
        match self {
            AllowedMethod::GET => "GET"@,
            AllowedMethod::HEAD => "HEAD"@,
            AllowedMethod::POST => "POST"@,
        }
    }

    /// The allowed method that a name stands for, if it stands for one.
    pub open spec fn named(method: Seq<char>) -> Option<Self> {
        if method == "GET"@ {
            Some(AllowedMethod::GET)
        } else if method == "HEAD"@ {
            Some(AllowedMethod::HEAD)
        } else if method == "POST"@ {
            Some(AllowedMethod::POST)
        } else {
            None
        }
    }

    /// The allowed method that a request's method is, if it is one. Names
    /// are told apart by case, as the protocol has it.
    pub fn find_from(method: &str) -> (found: Option<Self>)
        ensures
            found == Self::named(method@),
    {
        if same_text(method, "GET") {
            Some(AllowedMethod::GET)
        } else if same_text(method, "HEAD") {
            Some(AllowedMethod::HEAD)
        } else if same_text(method, "POST") {
            Some(AllowedMethod::POST)
        } else {
            None
        }
    }

    /// The name of the method, as it stands in a request.
    pub fn value(&self) -> (name: &'static str)
        ensures
            name@ == self.name(),
    {
        match self {
            AllowedMethod::GET => "GET",
            AllowedMethod::HEAD => "HEAD",
            AllowedMethod::POST => "POST",
        }
    }

    /// The response to a request whose method is not allowed: it names every
    /// allowed method, as a header each and together in its text.
    pub fn method_not_alllowed<V>(version: V) -> (reply: Reply<V>)
        ensures
            reply.version == version,
            reply.status == METHOD_NOT_ALLOWED,
            reply.allow@ == ALL_ALLOWED@,
            reply.body@ == Content::Text(not_allowed_message()),
    {
        let mut allow: Vec<AllowedMethod> = Vec::new();
        let mut message = String::from_str("Only ");
        let mut i: usize = 0;
        while i < 3
            invariant
                i <= 3,
                allow@ == ALL_ALLOWED@.take(i as int),
                message@ == "Only "@ + joined_names(ALL_ALLOWED@.take(i as int)),
            decreases 3 - i,
        {
            let method = ALL_ALLOWED[i];
            proof {
                let upto = ALL_ALLOWED@.take(i + 1);
                assert(upto.drop_last() == ALL_ALLOWED@.take(i as int));
                assert(upto.last() == method);
                assert(joined_names(ALL_ALLOWED@.take(0)) == Seq::<char>::empty());
            }
            if i > 0 {
                message.append(", ");
            }
            message.append(method.value());
            allow.push(method);
            i = i + 1;
        }
        message.append(" requests are allowed to thebestofcmu.");
        proof {
            assert(ALL_ALLOWED@.take(3) == ALL_ALLOWED@);
        }
        Reply { version, status: METHOD_NOT_ALLOWED, allow, body: Body::Text(message) }
    }
}

/// The text that tells a client which methods are allowed, written out.
pub proof fn lemma_not_allowed_message()
    ensures
        not_allowed_message() == "Only GET, HEAD, POST requests are allowed to thebestofcmu."@,
{
    reveal_strlit("Only ");
    reveal_strlit("GET");
    reveal_strlit("HEAD");
    reveal_strlit("POST");
    reveal_strlit(", ");
    reveal_strlit(" requests are allowed to thebestofcmu.");
    reveal_strlit("Only GET, HEAD, POST requests are allowed to thebestofcmu.");
    reveal_with_fuel(joined_names, 4);
    let methods = ALL_ALLOWED@;
    assert(methods.drop_last().drop_last() =~= seq![AllowedMethod::GET]);
    assert(methods.drop_last() =~= seq![AllowedMethod::GET, AllowedMethod::HEAD]);
    assert(not_allowed_message() =~= "Only GET, HEAD, POST requests are allowed to thebestofcmu."@);
}

} // verus!
