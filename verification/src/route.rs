//! The `route create` request: the five values that describe an ingress
//! route.
use vstd::prelude::*;

verus! {

/// A whole `route create` request.
#[derive(Debug)]
pub struct Route {
    pub command: EntityType,
}

/// The kind of entity the request is about.
#[allow(non_camel_case_types)]
#[derive(Debug)]
pub enum EntityType {
    route(RouteCreate),
}

/// The arguments that follow `route`.
#[derive(Debug)]
pub struct RouteCreate {
    pub command: RouteCommand,
}

/// The action that follows `route`.
#[allow(non_camel_case_types)]
#[derive(Debug)]
pub enum RouteCommand {
    create(CreateRoute),
}

/// The values that describe the route.
#[derive(Debug)]
pub struct CreateRoute {
    pub profile: String,
    pub dns_name: String,
    pub backend_service_name: String,
    pub backend_service_port: String,
    pub backend_service_scheme: String,
}

impl CreateRoute {
    /// The five values, in the order `get` hands them out: profile, DNS
    /// name, backend service name, port and scheme.
    pub open spec fn fields(&self) -> (Seq<char>, Seq<char>, Seq<char>, Seq<char>, Seq<char>) {
        (
            self.profile@,
            self.dns_name@,
            self.backend_service_name@,
            self.backend_service_port@,
            self.backend_service_scheme@,
        )
    }
}

impl Route {
    /// The route values at the bottom of the request.
    pub open spec fn route(&self) -> CreateRoute {
        self.command.route()
    }

    /// Profile, DNS name, backend service name, port and scheme.
    pub fn get(&self) -> (r: (&str, &str, &str, &str, &str))
        ensures
            (r.0@, r.1@, r.2@, r.3@, r.4@) == self.route().fields(),
            r.0@ == self.route().profile@,
            r.1@ == self.route().dns_name@,
            r.2@ == self.route().backend_service_name@,
            r.3@ == self.route().backend_service_port@,
            r.4@ == self.route().backend_service_scheme@,
    {
        self.command.get()
    }
}

impl EntityType {
    pub open spec fn route(&self) -> CreateRoute {
        match self {
            EntityType::route(args) => args.command.route(),
        }
    }

    /// Profile, DNS name, backend service name, port and scheme.
    pub fn get(&self) -> (r: (&str, &str, &str, &str, &str))
        ensures
            (r.0@, r.1@, r.2@, r.3@, r.4@) == self.route().fields(),
            r.0@ == self.route().profile@,
            r.1@ == self.route().dns_name@,
            r.2@ == self.route().backend_service_name@,
            r.3@ == self.route().backend_service_port@,
            r.4@ == self.route().backend_service_scheme@,
    {
        match self {
            EntityType::route(args) => args.command.get(),
        }
    }
}

impl RouteCommand {
    pub open spec fn route(&self) -> CreateRoute {
        match self {
            RouteCommand::create(args) => *args,
        }
    }

    /// Profile, DNS name, backend service name, port and scheme.
    pub fn get(&self) -> (r: (&str, &str, &str, &str, &str))
        ensures
            (r.0@, r.1@, r.2@, r.3@, r.4@) == self.route().fields(),
            r.0@ == self.route().profile@,
            r.1@ == self.route().dns_name@,
            r.2@ == self.route().backend_service_name@,
            r.3@ == self.route().backend_service_port@,
            r.4@ == self.route().backend_service_scheme@,
    {
        match self {
            RouteCommand::create(args) => (
                args.profile.as_str(),
                args.dns_name.as_str(),
                args.backend_service_name.as_str(),
                args.backend_service_port.as_str(),
                args.backend_service_scheme.as_str(),
            ),
        }
    }
}

/// `fields` lists the five values of a route in the request's own order:
/// profile, DNS name, backend service name, port and scheme.
pub proof fn lemma_route_fields_in_order(c: CreateRoute)
    ensures
        c.fields().0 == c.profile@,
        c.fields().1 == c.dns_name@,
        c.fields().2 == c.backend_service_name@,
        c.fields().3 == c.backend_service_port@,
        c.fields().4 == c.backend_service_scheme@,
{
}

/// Every layer of a route request reaches the route values that the
/// request was built from.
pub proof fn lemma_route_of_request(r: Route)
    ensures
        match r.command {
            EntityType::route(create) => match create.command {
                RouteCommand::create(values) => {
                    &&& r.route() == values
                    &&& r.command.route() == values
                    &&& create.command.route() == values
                },
            },
        },
{
}

} // verus!
