//! The `cert client create` request: the four values that describe the
//! certificate a client asks for.
use vstd::prelude::*;

verus! {

/// A whole `cert client create` request.
#[derive(Debug)]
pub struct ClientCertificate {
    pub command: EntityType,
}

/// The kind of entity the request is about.
#[allow(non_camel_case_types)]
#[derive(Debug)]
pub enum EntityType {
    cert(ClientCreate),
}

/// The arguments that follow `cert`.
#[derive(Debug)]
pub struct ClientCreate {
    pub command: ClientCommand,
}

/// The certificate role that follows `cert`.
#[allow(non_camel_case_types)]
#[derive(Debug)]
pub enum ClientCommand {
    client(Client),
}

/// The arguments that follow `client`.
#[derive(Debug)]
pub struct Client {
    pub command: CreateCommand,
}

/// The action that follows `client`.
#[allow(non_camel_case_types)]
#[derive(Debug)]
pub enum CreateCommand {
    create(CreateCertificate),
}

/// The values that describe the certificate.
#[derive(Debug)]
pub struct CreateCertificate {
    pub profile: String,
    pub common_name: String,
    pub duration: String,
    pub key_size: String,
}

impl CreateCertificate {
    /// The four values, in the order `get` hands them out:
    /// profile, common name, duration, key size.
    pub open spec fn fields(&self) -> (Seq<char>, Seq<char>, Seq<char>, Seq<char>) {
        (self.profile@, self.common_name@, self.duration@, self.key_size@)
    }
}

impl ClientCertificate {
    /// The certificate values at the bottom of the request.
    pub open spec fn certificate(&self) -> CreateCertificate {
        self.command.certificate()
    }

    /// Profile, common name, duration and key size of the request.
    pub fn get(&self) -> (r: (&str, &str, &str, &str))
        ensures
            (r.0@, r.1@, r.2@, r.3@) == self.certificate().fields(),
            r.0@ == self.certificate().profile@,
            r.1@ == self.certificate().common_name@,
            r.2@ == self.certificate().duration@,
            r.3@ == self.certificate().key_size@,
    {
        self.command.get()
    }
}

impl EntityType {
    pub open spec fn certificate(&self) -> CreateCertificate {
        match self {
            EntityType::cert(args) => args.command.certificate(),
        }
    }

    /// Profile, common name, duration and key size of the request.
    pub fn get(&self) -> (r: (&str, &str, &str, &str))
        ensures
            (r.0@, r.1@, r.2@, r.3@) == self.certificate().fields(),
            r.0@ == self.certificate().profile@,
            r.1@ == self.certificate().common_name@,
            r.2@ == self.certificate().duration@,
            r.3@ == self.certificate().key_size@,
    {
        match self {
            EntityType::cert(args) => args.command.get(),
        }
    }
}

impl ClientCommand {
    pub open spec fn certificate(&self) -> CreateCertificate {
        match self {
            ClientCommand::client(args) => args.command.certificate(),
        }
    }

    /// Profile, common name, duration and key size of the request.
    pub fn get(&self) -> (r: (&str, &str, &str, &str))
        ensures
            (r.0@, r.1@, r.2@, r.3@) == self.certificate().fields(),
            r.0@ == self.certificate().profile@,
            r.1@ == self.certificate().common_name@,
            r.2@ == self.certificate().duration@,
            r.3@ == self.certificate().key_size@,
    {
        match self {
            ClientCommand::client(args) => args.command.get(),
        }
    }
}

impl CreateCommand {
    pub open spec fn certificate(&self) -> CreateCertificate {
        match self {
            CreateCommand::create(args) => *args,
        }
    }

    /// Profile, common name, duration and key size of the request.
    pub fn get(&self) -> (r: (&str, &str, &str, &str))
        ensures
            (r.0@, r.1@, r.2@, r.3@) == self.certificate().fields(),
            r.0@ == self.certificate().profile@,
            r.1@ == self.certificate().common_name@,
            r.2@ == self.certificate().duration@,
            r.3@ == self.certificate().key_size@,
    {
        match self {
            CreateCommand::create(args) => (
                args.profile.as_str(),
                args.common_name.as_str(),
                args.duration.as_str(),
                args.key_size.as_str(),
            ),
        }
    }
}

/// `fields` lists the four values of a certificate in the request's own
/// order: profile, common name, duration and key size.
pub proof fn lemma_certificate_fields_in_order(c: CreateCertificate)
    ensures
        c.fields().0 == c.profile@,
        c.fields().1 == c.common_name@,
        c.fields().2 == c.duration@,
        c.fields().3 == c.key_size@,
{
}

/// Every layer of a client certificate request reaches the certificate
/// values that the request was built from.
pub proof fn lemma_certificate_of_request(r: ClientCertificate)
    ensures
        match r.command {
            EntityType::cert(create) => match create.command {
                ClientCommand::client(client) => match client.command {
                    CreateCommand::create(values) => {
                        &&& r.certificate() == values
                        &&& r.command.certificate() == values
                        &&& create.command.certificate() == values
                        &&& client.command.certificate() == values
                    },
                },
            },
        },
{
}

} // verus!
