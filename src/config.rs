use vstd::prelude::*;

verus! {

/// The namespace `"/{environment}/{service}/"` as a sequence of characters.
pub open spec fn path_of(environment: Seq<char>, service: Seq<char>) -> Seq<char> {
    seq!['/'] + environment + seq!['/'] + service + seq!['/']
}

/// Names the environment and the service whose parameters and secrets are looked up.
#[derive(Debug)]
pub struct Config {
    environment: String,
    service: String,
}

impl Config {
    pub closed spec fn environment_spec(&self) -> Seq<char> {
        self.environment@
    }

    pub closed spec fn service_spec(&self) -> Seq<char> {
        self.service@
    }

    /// The lookup namespace of this configuration.
    pub open spec fn path(&self) -> Seq<char> {
        path_of(self.environment_spec(), self.service_spec())
    }

    pub fn new(environment: &str, service: &str) -> (r: Self)
        ensures
            r.environment_spec() == environment@,
            r.service_spec() == service@,
    {
        Config { environment: String::from_str(environment), service: String::from_str(service) }
    }

    /// Returns `"/{environment}/{service}/"`.
    pub fn as_path(&self) -> (r: String)
        ensures
            r@ == self.path(),
    {
        let mut s = String::from_str("/");
        s.append(self.environment.as_str());
        s.append("/");
        s.append(self.service.as_str());
        s.append("/");
        proof {
            reveal_strlit("/");
            assert(s@ =~= self.path());
        }
        s
    }
}

} // verus!
