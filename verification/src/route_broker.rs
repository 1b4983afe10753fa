//! How clients find the logging service: its routes are published once it is ready and withdrawn
//! before it ends, and requests for them are answered in between.

use crate::identity::{ProviderGeneration, RoleId, RouteKey};
use crate::init_run;
use crate::init_run::{hear, need, Halt, Run};
use crate::init_text::Text;
use crate::ipc;
use crate::ipc::{CapabilityHandle, CapabilityInfo, Rights};
use crate::kernel;
use crate::kernel::{Kernel, Op};
use crate::route_protocol;
use crate::service_control::logging_service_id;
use crate::service_route;
use crate::service_route::{
    provider_source_rights, Authorizer, AuthorizationError, IngressError, NativePublishError,
    NativeRouteTable, ReplyError, RouteIngress, RouteReply,
};
use vstd::prelude::*;

verus! {

pub const MAX_BOOTSTRAP_ROUTES: usize = 2;

/// How often both ingresses are looked at in turn.
pub const ROUTE_PUMP_BUDGET: usize = 4;

pub const LOGGING_PRODUCER_ROLE: u32 = 1;

pub const LOGGING_OBSERVER_ROLE: u32 = 2;

/// The route of those who write to the log.
#[verifier::allow_in_spec]
pub fn logging_producer_key() -> RouteKey
    returns
        (RouteKey { service: logging_service_id(), role: RoleId { raw: LOGGING_PRODUCER_ROLE } }),
{
    RouteKey { service: logging_service_id(), role: RoleId { raw: LOGGING_PRODUCER_ROLE } }
}

/// The route of those who read the log.
#[verifier::allow_in_spec]
pub fn logging_observer_key() -> RouteKey
    returns
        (RouteKey { service: logging_service_id(), role: RoleId { raw: LOGGING_OBSERVER_ROLE } }),
{
    RouteKey { service: logging_service_id(), role: RoleId { raw: LOGGING_OBSERVER_ROLE } }
}

/// Lets every process have a route that it was granted.
#[derive(Debug)]
pub struct AllowGrantedRoute;

/// There is no process with number zero.
#[derive(Clone, Copy, Debug, PartialEq, Eq, Structural)]
pub struct NoCaller;

impl Authorizer for AllowGrantedRoute {
    type Error = NoCaller;

    open spec fn verdict(self, caller: u64, key: RouteKey) -> Result<(), NoCaller> {
        if caller == 0 {
            Err(NoCaller)
        } else {
            Ok(())
        }
    }

    open spec fn after(self, caller: u64, key: RouteKey) -> Self {
        self
    }

    fn authorize(&mut self, caller: &u64, key: RouteKey) -> Result<(), NoCaller> {
        if *caller == 0 {
            Err(NoCaller)
        } else {
            Ok(())
        }
    }
}

/// The routes that are published and those that were.
pub type Routes = Seq<route_protocol::Route<CapabilityHandle>>;

/// Where routes are asked for, and what they are.
///
/// A clone owns nothing: it is there to run a procedure again from the same state.
#[derive(Clone, Debug)]
pub struct RouteBrokerState {
    pub routes: NativeRouteTable<CapabilityHandle, MAX_BOOTSTRAP_ROUTES>,
    pub producer_grant_source: CapabilityHandle,
    pub observer_grant_source: CapabilityHandle,
    pub producer_ingress: RouteIngress,
    pub observer_ingress: RouteIngress,
}

/// The broker as the contracts see it.
#[verifier::ext_equal]
pub ghost struct Broker {
    pub routes: Routes,
    pub producer_grant_source: CapabilityHandle,
    pub observer_grant_source: CapabilityHandle,
    pub producer: service_route::Ingress,
    pub observer: service_route::Ingress,
}

impl View for RouteBrokerState {
    type V = Broker;

    open spec fn view(&self) -> Broker {
        Broker {
            routes: self.routes@,
            producer_grant_source: self.producer_grant_source,
            observer_grant_source: self.observer_grant_source,
            producer: self.producer_ingress@,
            observer: self.observer_ingress@,
        }
    }
}

/// Making the endpoints over which routes are asked for.
pub open spec fn new_run(k: kernel::Transcript) -> Run<Broker> {
    let text = Text::LoggingServiceBootstrapFailed;
    init_run::bind(
        init_run::need_run(ipc::value_run(k, Op::EndpointCreate), text),
        |k: kernel::Transcript, producer: u64|
            init_run::bind(
                init_run::need_run(ipc::value_run(k, Op::EndpointCreate), text),
                |k: kernel::Transcript, observer: u64| receivers_run(k, producer, observer),
            ),
    )
}

/// Taking the receiving ends of both endpoints.
pub open spec fn receivers_run(
    k: kernel::Transcript,
    producer: CapabilityHandle,
    observer: CapabilityHandle,
) -> Run<Broker> {
    let text = Text::LoggingServiceBootstrapFailed;
    let rights = Rights::receive().raw;
    init_run::bind(
        init_run::need_run(ipc::value_run(k, Op::Duplicate { handle: producer, rights }), text),
        |k: kernel::Transcript, producer_receive: u64|
            init_run::bind(
                init_run::need_run(
                    ipc::value_run(k, Op::Duplicate { handle: observer, rights }),
                    text,
                ),
                |k: kernel::Transcript, observer_receive: u64|
                    ingresses_run(k, producer, observer, producer_receive, observer_receive),
            ),
    )
}

/// Binding both ends to their routes.
pub open spec fn ingresses_run(
    k: kernel::Transcript,
    producer: CapabilityHandle,
    observer: CapabilityHandle,
    producer_receive: CapabilityHandle,
    observer_receive: CapabilityHandle,
) -> Run<Broker> {
    let text = Text::LoggingServiceBootstrapFailed;
    init_run::bind(
        init_run::need_run(
            service_route::bind_run(k, producer_receive, logging_producer_key()),
            text,
        ),
        |k: kernel::Transcript, producer_ingress: service_route::Ingress|
            init_run::bind(
                init_run::need_run(
                    service_route::bind_run(k, observer_receive, logging_observer_key()),
                    text,
                ),
                |k: kernel::Transcript, observer_ingress: service_route::Ingress|
                    init_run::end(
                        k,
                        Broker {
                            routes: Seq::empty(),
                            producer_grant_source: producer,
                            observer_grant_source: observer,
                            producer: producer_ingress,
                            observer: observer_ingress,
                        },
                    ),
            ),
    )
}

/// Looking once for a request on one ingress, and answering it: whether something was there.
pub open spec fn pump_ingress_run(
    k: kernel::Transcript,
    ingress: service_route::Ingress,
    routes: Routes,
) -> Run<bool> {
    init_run::bind(
        init_run::hear_run(service_route::accept_run(k, ingress)),
        |k: kernel::Transcript, accepted: Result<Option<service_route::Requested>, IngressError>|
            match accepted {
                Ok(None) => init_run::end(k, false),
                Err(_) => init_run::end(k, true),
                Ok(Some(request)) => answer_run(k, request, routes),
            },
    )
}

/// Answering one request.
pub open spec fn answer_run(
    k: kernel::Transcript,
    request: service_route::Requested,
    routes: Routes,
) -> Run<bool> {
    init_run::bind(
        init_run::hear_run(
            service_route::authorize_run(
                k,
                request,
                AllowGrantedRoute.verdict(request.sender_process_id, request.key),
            ),
        ),
        |
            k: kernel::Transcript,
            authorized: Result<service_route::Requested, AuthorizationError<NoCaller>>,
        |
            match authorized {
                Err(_) => init_run::end(k, true),
                Ok(request) => init_run::bind(
                    init_run::hear_run(
                        service_route::resolve_run(
                            k,
                            request,
                            route_protocol::active_route(routes, request.key),
                        ),
                    ),
                    |k: kernel::Transcript, replied: Result<RouteReply, ReplyError>|
                        init_run::end(k, true),
                ),
            },
    )
}

pub fn pump_route_ingress(
    k: &mut Kernel,
    ingress: &mut RouteIngress,
    routes: &NativeRouteTable<CapabilityHandle, MAX_BOOTSTRAP_ROUTES>,
) -> (result: Result<bool, Halt>)
    ensures
        (final(k)@, result) == pump_ingress_run(old(k)@, old(ingress)@, routes@),
        final(ingress)@ == old(ingress)@,
{
    let request = match hear(ingress.try_accept(k))? {
        Ok(Some(request)) => request,
        Ok(None) => {
            return Ok(false);
        },
        Err(_) => {
            return Ok(true);
        },
    };
    let mut authorizer = AllowGrantedRoute;
    if let Ok(authorized) = hear(request.authorize(k, &mut authorizer))? {
        let _ = hear(authorized.resolve(k, routes))?;
    }
    Ok(true)
}

/// Looking once at both ingresses: whether something was at either.
pub open spec fn pump_both_run(k: kernel::Transcript, broker: Broker) -> Run<bool> {
    init_run::bind(
        pump_ingress_run(k, broker.producer, broker.routes),
        |k: kernel::Transcript, first: bool|
            init_run::bind(
                pump_ingress_run(k, broker.observer, broker.routes),
                |k: kernel::Transcript, second: bool| init_run::end(k, first || second),
            ),
    )
}

/// Answering requests for routes, until none is left or the budget is spent.
pub open spec fn pump_run(k: kernel::Transcript, broker: Broker, budget: nat) -> Run<()>
    decreases budget,
{
    if budget == 0 {
        init_run::end(k, ())
    } else {
        let (asked, result) = pump_both_run(k, broker);
        match result {
            Err(halt) => (asked, Err(halt)),
            Ok(false) => init_run::end(asked, ()),
            Ok(true) => pump_run(asked, broker, (budget - 1) as nat),
        }
    }
}

/// Copying an endpoint so that it can be handed out.
pub open spec fn authority_run(k: kernel::Transcript, source: CapabilityHandle) -> Run<
    CapabilityHandle,
> {
    init_run::need_run(
        ipc::value_run(
            k,
            Op::Duplicate { handle: source, rights: provider_source_rights().raw },
        ),
        Text::LoggingServiceBootstrapFailed,
    )
}

/// Publishing one route, in the place of none.
pub open spec fn publish_one_run(
    k: kernel::Transcript,
    routes: Routes,
    key: RouteKey,
    generation: ProviderGeneration,
    authority: CapabilityHandle,
) -> Run<Routes> {
    init_run::bind(
        init_run::hear_run(
            service_route::publish_run(
                k,
                routes,
                MAX_BOOTSTRAP_ROUTES as int,
                key,
                generation,
                authority,
            ),
        ),
        |
            k: kernel::Transcript,
            published: (
                Routes,
                Result<Option<CapabilityHandle>, NativePublishError<CapabilityHandle>>,
            ),
        |
            if published.1 == Ok::<_, NativePublishError<CapabilityHandle>>(
                None::<CapabilityHandle>,
            ) {
                init_run::end(k, published.0)
            } else {
                init_run::giving_up(k, Text::LoggingServiceBootstrapFailed)
            },
    )
}

/// Publishing both routes of a generation.
pub open spec fn publish_run(
    k: kernel::Transcript,
    routes: Routes,
    generation: ProviderGeneration,
    producer: CapabilityHandle,
    observer: CapabilityHandle,
) -> Run<Routes> {
    init_run::bind(
        authority_run(k, producer),
        |k: kernel::Transcript, producer_authority: u64|
            init_run::bind(
                authority_run(k, observer),
                |k: kernel::Transcript, observer_authority: u64|
                    init_run::bind(
                        publish_one_run(
                            k,
                            routes,
                            logging_producer_key(),
                            generation,
                            producer_authority,
                        ),
                        |k: kernel::Transcript, published: Routes|
                            publish_one_run(
                                k,
                                published,
                                logging_observer_key(),
                                generation,
                                observer_authority,
                            ),
                    ),
            ),
    )
}

/// Withdrawing both routes of a generation and closing what was handed out.
pub open spec fn withdraw_run(
    k: kernel::Transcript,
    routes: Routes,
    generation: ProviderGeneration,
) -> Run<Routes> {
    let text = Text::LoggingServiceBootstrapFailed;
    let (partly, producer) = route_protocol::after_withdraw(
        routes,
        logging_producer_key(),
        generation,
    );
    let (wholly, observer) = route_protocol::after_withdraw(
        partly,
        logging_observer_key(),
        generation,
    );
    if producer is Err || observer is Err {
        init_run::giving_up(k, text)
    } else {
        init_run::bind(
            init_run::need_run(ipc::close_run(k, producer->Ok_0), text),
            |k: kernel::Transcript, first: ()|
                init_run::bind(
                    init_run::need_run(ipc::close_run(k, observer->Ok_0), text),
                    |k: kernel::Transcript, second: ()| init_run::end(k, wholly),
                ),
        )
    }
}

/// Whether a procedure that only changes the routes came to what its run says.
pub open spec fn rerouted(
    run: Run<Routes>,
    k: kernel::Transcript,
    before: Broker,
    after: Broker,
    result: Result<(), Halt>,
) -> bool {
    &&& k == run.0
    &&& after == Broker { routes: after.routes, ..before }
    &&& match result {
        Ok(_) => run.1 == Ok::<_, Halt>(after.routes),
        Err(halt) => run.1 == Err::<Routes, _>(halt),
    }
}

impl RouteBrokerState {
    pub fn new(k: &mut Kernel) -> (result: Result<Self, Halt>)
        ensures
            ({
                let (asked, outcome) = new_run(old(k)@);
                &&& final(k)@ == asked
                &&& match result {
                    Ok(broker) => outcome == Ok::<_, Halt>(broker@),
                    Err(halt) => outcome == Err::<Broker, _>(halt),
                }
            }),
    {
        let text = Text::LoggingServiceBootstrapFailed;
        let producer_grant_source = need(ipc::endpoint_create(k), text)?;
        let observer_grant_source = need(ipc::endpoint_create(k), text)?;
        let producer_receive = need(
            ipc::duplicate(k, producer_grant_source, Rights::receive()),
            text,
        )?;
        let observer_receive = need(
            ipc::duplicate(k, observer_grant_source, Rights::receive()),
            text,
        )?;
        let producer_ingress = need(
            RouteIngress::bind(k, producer_receive, logging_producer_key()),
            text,
        )?;
        let observer_ingress = need(
            RouteIngress::bind(k, observer_receive, logging_observer_key()),
            text,
        )?;
        Ok(
            RouteBrokerState {
                routes: NativeRouteTable::new(),
                producer_grant_source,
                observer_grant_source,
                producer_ingress,
                observer_ingress,
            },
        )
    }

    pub fn pump(&mut self, k: &mut Kernel) -> (result: Result<(), Halt>)
        ensures
            (final(k)@, result) == pump_run(old(k)@, old(self)@, ROUTE_PUMP_BUDGET as nat),
            final(self)@ == old(self)@,
    {
        let mut budget: usize = ROUTE_PUMP_BUDGET;
        while budget > 0
            invariant
                pump_run(old(k)@, old(self)@, ROUTE_PUMP_BUDGET as nat) == pump_run(
                    k@,
                    self@,
                    budget as nat,
                ),
                self@ == old(self)@,
            decreases budget,
        {
            let first = pump_route_ingress(k, &mut self.producer_ingress, &self.routes)?;
            let second = pump_route_ingress(k, &mut self.observer_ingress, &self.routes)?;
            if !first && !second {
                return Ok(());
            }
            budget -= 1;
        }
        Ok(())
    }

    fn publish_one(
        &mut self,
        k: &mut Kernel,
        key: RouteKey,
        generation: ProviderGeneration,
        authority: CapabilityHandle,
    ) -> (result: Result<(), Halt>)
        ensures
            rerouted(
                publish_one_run(old(k)@, old(self)@.routes, key, generation, authority),
                final(k)@,
                old(self)@,
                final(self)@,
                result,
            ),
    {
        match hear(self.routes.publish(k, key, generation, authority))? {
            Ok(None) => Ok(()),
            _ => Err(Halt::Failed(Text::LoggingServiceBootstrapFailed)),
        }
    }

    pub fn publish(
        &mut self,
        k: &mut Kernel,
        generation: ProviderGeneration,
        producer_source: CapabilityHandle,
        observer_source: CapabilityHandle,
    ) -> (result: Result<(), Halt>)
        ensures
            rerouted(
                publish_run(
                    old(k)@,
                    old(self)@.routes,
                    generation,
                    producer_source,
                    observer_source,
                ),
                final(k)@,
                old(self)@,
                final(self)@,
                result,
            ),
    {
        let producer_authority = need(
            ipc::duplicate(k, producer_source, provider_source_rights()),
            Text::LoggingServiceBootstrapFailed,
        )?;
        let observer_authority = need(
            ipc::duplicate(k, observer_source, provider_source_rights()),
            Text::LoggingServiceBootstrapFailed,
        )?;
        self.publish_one(k, logging_producer_key(), generation, producer_authority)?;
        self.publish_one(k, logging_observer_key(), generation, observer_authority)
    }

    pub fn withdraw(&mut self, k: &mut Kernel, generation: ProviderGeneration) -> (result: Result<
        (),
        Halt,
    >)
        ensures
            rerouted(
                withdraw_run(old(k)@, old(self)@.routes, generation),
                final(k)@,
                old(self)@,
                final(self)@,
                result,
            ),
    {
        let producer = match self.routes.withdraw(logging_producer_key(), generation) {
            Ok(producer) => producer,
            Err(_) => {
                return Err(Halt::Failed(Text::LoggingServiceBootstrapFailed));
            },
        };
        let observer = match self.routes.withdraw(logging_observer_key(), generation) {
            Ok(observer) => observer,
            Err(_) => {
                return Err(Halt::Failed(Text::LoggingServiceBootstrapFailed));
            },
        };
        need(ipc::close(k, producer), Text::LoggingServiceBootstrapFailed)?;
        need(ipc::close(k, observer), Text::LoggingServiceBootstrapFailed)
    }
}

/// Looking up a route: its generation and the object that provides it.
pub open spec fn published_run(k: kernel::Transcript, routes: Routes, key: RouteKey) -> Run<
    Option<(ProviderGeneration, u64)>,
> {
    match route_protocol::active_route(routes, key) {
        None => init_run::end(k, None),
        Some(route) => init_run::bind(
            init_run::hear_run(ipc::info_run(k, route.authority)),
            |k: kernel::Transcript, inspected: Result<CapabilityInfo, ipc::Error>|
                match inspected {
                    Err(_) => init_run::end(k, None),
                    Ok(info) => init_run::end(k, Some((route.generation, info.object_id))),
                },
        ),
    }
}

pub fn published_route(k: &mut Kernel, route_broker: &RouteBrokerState, key: RouteKey) -> (result:
    Result<Option<(ProviderGeneration, u64)>, Halt>)
    ensures
        (final(k)@, result) == published_run(old(k)@, route_broker@.routes, key),
{
    match route_broker.routes.published(key) {
        None => Ok(None),
        Some(route) => {
            match hear(ipc::info(k, *route.authority))? {
                Err(_) => Ok(None),
                Ok(info) => Ok(Some((route.generation, info.object_id))),
            }
        },
    }
}

/// Once a generation is published, both routes lead to it.
pub proof fn lemma_published_routes_lead_to_the_generation(
    k: kernel::Transcript,
    routes: Routes,
    generation: ProviderGeneration,
    producer: CapabilityHandle,
    observer: CapabilityHandle,
)
    requires
        publish_run(k, routes, generation, producer, observer).1 is Ok,
    ensures
        ({
            let next = publish_run(k, routes, generation, producer, observer).1->Ok_0;
            let first = route_protocol::active_route(next, logging_producer_key());
            let second = route_protocol::active_route(next, logging_observer_key());
            &&& first is Some && first->0.generation == generation
            &&& second is Some && second->0.generation == generation
            &&& route_protocol::active_route(routes, logging_producer_key()) is None
            &&& route_protocol::active_route(routes, logging_observer_key()) is None
        }),
{
    let (first, producer_authority) = authority_run(k, producer);
    let (second, observer_authority) = authority_run(first, observer);
    let producer_authority = producer_authority->Ok_0;
    let observer_authority = observer_authority->Ok_0;
    let (third, partly) = publish_one_run(
        second,
        routes,
        logging_producer_key(),
        generation,
        producer_authority,
    );
    route_protocol::lemma_publish_replaces_one_route(
        routes,
        MAX_BOOTSTRAP_ROUTES as int,
        logging_producer_key(),
        generation,
        producer_authority,
        logging_observer_key(),
    );
    route_protocol::lemma_publish_replaces_one_route(
        partly->Ok_0,
        MAX_BOOTSTRAP_ROUTES as int,
        logging_observer_key(),
        generation,
        observer_authority,
        logging_producer_key(),
    );
}

/// Once a generation is withdrawn, neither route leads anywhere, and both led to that generation
/// before.
pub proof fn lemma_withdrawn_routes_lead_nowhere(
    k: kernel::Transcript,
    routes: Routes,
    generation: ProviderGeneration,
)
    requires
        withdraw_run(k, routes, generation).1 is Ok,
    ensures
        ({
            let next = withdraw_run(k, routes, generation).1->Ok_0;
            let first = route_protocol::active_route(routes, logging_producer_key());
            let second = route_protocol::active_route(routes, logging_observer_key());
            &&& first is Some && first->0.generation == generation
            &&& second is Some && second->0.generation == generation
            &&& route_protocol::active_route(next, logging_producer_key()) is None
            &&& route_protocol::active_route(next, logging_observer_key()) is None
        }),
{
    let partly = route_protocol::after_withdraw(routes, logging_producer_key(), generation).0;
    route_protocol::lemma_withdraw_leaves_a_tombstone(
        routes,
        logging_producer_key(),
        generation,
        logging_observer_key(),
    );
    route_protocol::lemma_withdraw_leaves_a_tombstone(
        partly,
        logging_observer_key(),
        generation,
        logging_producer_key(),
    );
}

/// Once a generation is published, each route leads to its own endpoint: those who write get an
/// authority over the endpoint that takes writers, and those who read one over the endpoint that
/// takes readers. Neither authority nor endpoint is closed.
pub proof fn lemma_published_routes_lead_to_their_endpoints(
    k: kernel::Transcript,
    routes: Routes,
    generation: ProviderGeneration,
    producer: CapabilityHandle,
    observer: CapabilityHandle,
)
    requires
        publish_run(k, routes, generation, producer, observer).1 is Ok,
    ensures
        ({
            let (after, outcome) = publish_run(k, routes, generation, producer, observer);
            let first = route_protocol::active_route(outcome->Ok_0, logging_producer_key());
            let second = route_protocol::active_route(outcome->Ok_0, logging_observer_key());
            let n = k.asked.len() as int;
            let rights = provider_source_rights().raw;
            &&& after.follows(k)
            &&& first is Some && second is Some
            &&& ipc::answered(
                after,
                n,
                Op::Duplicate { handle: producer, rights },
                first->Some_0.authority,
            )
            &&& ipc::answered(
                after,
                n + 1,
                Op::Duplicate { handle: observer, rights },
                second->Some_0.authority,
            )
            &&& forall|i: int|
                n <= i < after.asked.len() ==> !((#[trigger] after.asked[i]).op is Close)
        }),
{
    let (first, producer_authority) = authority_run(k, producer);
    let (second, observer_authority) = authority_run(first, observer);
    let producer_authority = producer_authority->Ok_0;
    let observer_authority = observer_authority->Ok_0;
    let (third, partly) = publish_one_run(
        second,
        routes,
        logging_producer_key(),
        generation,
        producer_authority,
    );
    route_protocol::lemma_publish_replaces_one_route(
        routes,
        MAX_BOOTSTRAP_ROUTES as int,
        logging_producer_key(),
        generation,
        producer_authority,
        logging_observer_key(),
    );
    route_protocol::lemma_publish_replaces_one_route(
        partly->Ok_0,
        MAX_BOOTSTRAP_ROUTES as int,
        logging_observer_key(),
        generation,
        observer_authority,
        logging_producer_key(),
    );
}

/// Withdrawing a generation closes what its routes led to, both authorities and nothing else.
pub proof fn lemma_withdrawn_authorities_are_closed(
    k: kernel::Transcript,
    routes: Routes,
    generation: ProviderGeneration,
)
    requires
        withdraw_run(k, routes, generation).1 is Ok,
    ensures
        ({
            let after = withdraw_run(k, routes, generation).0;
            let first = route_protocol::active_route(routes, logging_producer_key());
            let second = route_protocol::active_route(routes, logging_observer_key());
            &&& after.follows(k)
            &&& after.asked.len() == k.asked.len() + 2
            &&& first matches Some(route) && after.asked_since(
                k,
                Op::Close { handle: route.authority },
            )
            &&& second matches Some(route) && after.asked_since(
                k,
                Op::Close { handle: route.authority },
            )
        }),
{
    let partly = route_protocol::after_withdraw(routes, logging_producer_key(), generation).0;
    route_protocol::lemma_withdraw_leaves_a_tombstone(
        routes,
        logging_producer_key(),
        generation,
        logging_observer_key(),
    );
    route_protocol::lemma_withdraw_leaves_a_tombstone(
        partly,
        logging_observer_key(),
        generation,
        logging_producer_key(),
    );
    let after = withdraw_run(k, routes, generation).0;
    let n = k.asked.len() as int;
    let first = route_protocol::active_route(routes, logging_producer_key())->Some_0;
    let second = route_protocol::active_route(routes, logging_observer_key())->Some_0;
    assert(after.asked[n].op == Op::Close { handle: first.authority });
    assert(after.asked[n + 1].op == Op::Close { handle: second.authority });
}

/// A new broker hears each route where it is asked for: what is sent to the grant of a route comes
/// in at the ingress that is bound to the key of that route. It has no route yet.
pub proof fn lemma_broker_listens_where_it_is_asked(k: kernel::Transcript)
    ensures
        ({
            let (after, outcome) = new_run(k);
            let rights = Rights::receive().raw;
            outcome matches Ok(broker) ==> {
                &&& after.follows(k)
                &&& broker.routes.len() == 0
                &&& broker.producer.granted_key == logging_producer_key()
                &&& broker.observer.granted_key == logging_observer_key()
                &&& ipc::given(k, after, Op::EndpointCreate, broker.producer_grant_source)
                &&& ipc::given(k, after, Op::EndpointCreate, broker.observer_grant_source)
                &&& ipc::given(
                    k,
                    after,
                    Op::Duplicate { handle: broker.producer_grant_source, rights },
                    broker.producer.receive,
                )
                &&& ipc::given(
                    k,
                    after,
                    Op::Duplicate { handle: broker.observer_grant_source, rights },
                    broker.observer.receive,
                )
            }
        }),
{
    let (after, outcome) = new_run(k);
    if let Ok(broker) = outcome {
        let n = k.asked.len() as int;
        let rights = Rights::receive().raw;
        assert(ipc::answered(after, n, Op::EndpointCreate, broker.producer_grant_source));
        assert(ipc::answered(after, n + 1, Op::EndpointCreate, broker.observer_grant_source));
        assert(ipc::answered(
            after,
            n + 2,
            Op::Duplicate { handle: broker.producer_grant_source, rights },
            broker.producer.receive,
        ));
        assert(ipc::answered(
            after,
            n + 3,
            Op::Duplicate { handle: broker.observer_grant_source, rights },
            broker.observer.receive,
        ));
    }
}

} // verus!
