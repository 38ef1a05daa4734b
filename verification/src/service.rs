//! The executor: the registry of handlers, the shared service, and the
//! dispatch of one connection's request to its handler.

use std::sync::Arc;
use vstd::prelude::*;
use crate::names::NameMap;
use crate::outcome::{RasResult, Step};
use crate::request::{read_request, received, ReadEvent, RequestText, Verb};
use crate::routes::Routes;
use crate::status::HttpStatus;
use crate::text::opt_str_text;

verus! {

/// The runtime that serves the connections, `tokio::runtime::Runtime`.
/// The executor only carries it.
#[verifier::external_type_specification]
#[verifier::external_body]
pub struct ExRuntime(tokio::runtime::Runtime);

/// A handle to the runtime, `tokio::runtime::Handle`. The executor only
/// hands it on to the handlers.
#[verifier::external_type_specification]
#[verifier::external_body]
pub struct ExHandle(tokio::runtime::Handle);

/// A handler can be called with every handle, service and input.
pub open spec fn callable<T, H>(handler: H) -> bool where
    H: Fn(tokio::runtime::Handle, Arc<T>, Option<&str>) -> RasResult,
{
    forall|handle: tokio::runtime::Handle, service: Arc<T>, input: Option<&str>|
        call_requires(handler, (handle, service, input))
}

/// Every handler in `table` can be called.
pub open spec fn all_callable<T, H>(table: Map<Seq<char>, H>) -> bool where
    H: Fn(tokio::runtime::Handle, Arc<T>, Option<&str>) -> RasResult,
{
    forall|name: Seq<char>| table.contains_key(name) ==> callable::<T, H>(#[trigger] table[name])
}

/// `step` is what follows from a call of `handler` with `handle`,
/// `service` and an input whose text is `input`.
pub open spec fn handled<T, H>(
    handler: H,
    handle: tokio::runtime::Handle,
    service: Arc<T>,
    input: Option<Seq<char>>,
    step: Step,
) -> bool where H: Fn(tokio::runtime::Handle, Arc<T>, Option<&str>) -> RasResult {
    exists|given: Option<&str>, outcome: RasResult|
        {
            &&& opt_str_text(given) == input
            &&& #[trigger] call_ensures(handler, (handle, service, given), outcome)
            &&& step == outcome.next_step()
        }
}

/// `step` is how a request for `name` with `input` is answered from
/// `table`: by the handler registered under `name`, and with `NotFound`,
/// no handler being called, where there is none.
pub open spec fn answered<T, H>(
    table: Map<Seq<char>, H>,
    name: Seq<char>,
    handle: tokio::runtime::Handle,
    service: Arc<T>,
    input: Option<Seq<char>>,
    step: Step,
) -> bool where H: Fn(tokio::runtime::Handle, Arc<T>, Option<&str>) -> RasResult {
    if table.contains_key(name) {
        handled(table[name], handle, service, input, step)
    } else {
        step == Step::Reply(HttpStatus::NotFound, None)
    }
}

/// A request for a function that is not registered is answered with
/// `NotFound` and no data.
pub proof fn law_unregistered_is_not_found<T, H>(
    table: Map<Seq<char>, H>,
    name: Seq<char>,
    handle: tokio::runtime::Handle,
    service: Arc<T>,
    input: Option<Seq<char>>,
    step: Step,
) where H: Fn(tokio::runtime::Handle, Arc<T>, Option<&str>) -> RasResult
    requires
        !table.contains_key(name),
        answered(table, name, handle, service, input, step),
    ensures
        step == Step::Reply(HttpStatus::NotFound, None),
{
}

/// A request whose handler returns a synchronous outcome is answered with
/// exactly the status and the data of that outcome, and nothing is waited
/// for.
pub proof fn law_immediate_outcome_is_the_reply<T, H>(
    handler: H,
    handle: tokio::runtime::Handle,
    service: Arc<T>,
    input: Option<Seq<char>>,
    step: Step,
    status: HttpStatus,
    data: Option<String>,
) where H: Fn(tokio::runtime::Handle, Arc<T>, Option<&str>) -> RasResult
    requires
        handled(handler, handle, service, input, step),
        forall|given: Option<&str>, outcome: RasResult|
            opt_str_text(given) == input && #[trigger] call_ensures(
                handler,
                (handle, service, given),
                outcome,
            ) ==> outcome == RasResult::Sync(status, data),
    ensures
        step == Step::Reply(status, data),
{
}

/// Executor
///
/// `T` is the service that the handlers share, `H` the type of the
/// handlers: `fn(Handle, Arc<T>, Option<&str>) -> RasResult`, or any other
/// that can be called so.
pub struct RasServiceBuilder<T, H> {
    get_functions: NameMap<H>,
    post_functions: NameMap<H>,
    runtime: tokio::runtime::Runtime,
    service: Arc<T>,
    socket_url: String,
}

impl<T: 'static, H> RasServiceBuilder<T, H> where
    T: Sync + Send,
    H: Fn(tokio::runtime::Handle, Arc<T>, Option<&str>) -> RasResult,
{
    /// The registered handlers.
    pub closed spec fn routes(&self) -> Routes<H> {
        Routes { get: self.get_functions@, post: self.post_functions@ }
    }

    /// The service that every handler is called with.
    pub closed spec fn shared_service(&self) -> Arc<T> {
        self.service
    }

    /// The address that the service listens on.
    pub closed spec fn listen_address(&self) -> Seq<char> {
        self.socket_url@
    }

    /// The runtime that the executor carries.
    pub closed spec fn held_runtime(&self) -> tokio::runtime::Runtime {
        self.runtime
    }

    /// Both tables are well formed, and every registered handler can be
    /// called.
    pub closed spec fn wf(&self) -> bool {
        &&& self.get_functions.wf()
        &&& self.post_functions.wf()
        &&& all_callable::<T, H>(self.get_functions@)
        &&& all_callable::<T, H>(self.post_functions@)
    }

    /// Create executor (also bind runtime and service)
    pub fn new(runtime: tokio::runtime::Runtime, service: T) -> (builder: RasServiceBuilder<T, H>)
        ensures
            builder.wf(),
            builder.routes() == Routes::<H>::empty(),
            builder.held_runtime() == runtime,
            *builder.shared_service() == service,
            builder.listen_address() == "127.0.0.1:7777"@,
    {
        RasServiceBuilder {
            get_functions: NameMap::new(),
            post_functions: NameMap::new(),
            runtime,
            service: Arc::new(service),
            socket_url: "127.0.0.1:7777".to_owned(),
        }
    }

    /// Specify address for TcpListener
    pub fn set_socket_url(self, url: &str) -> (builder: Self)
        requires
            self.wf(),
        ensures
            builder.wf(),
            builder.listen_address() == url@,
            builder.routes() == self.routes(),
            builder.shared_service() == self.shared_service(),
            builder.held_runtime() == self.held_runtime(),
    {
        let mut builder = self;
        builder.socket_url = url.to_owned();
        builder
    }

    /// Register GET function
    pub fn add_get_function(self, name: String, f: H) -> (builder: Self)
        requires
            self.wf(),
            callable::<T, H>(f),
        ensures
            builder.wf(),
            builder.routes() == self.routes().register(Verb::Get, name@, f),
            builder.shared_service() == self.shared_service(),
            builder.listen_address() == self.listen_address(),
            builder.held_runtime() == self.held_runtime(),
    {
        let mut builder = self;
        builder.get_functions.insert(name, f);
        builder
    }

    /// Register POST function
    pub fn add_post_function(self, name: String, f: H) -> (builder: Self)
        requires
            self.wf(),
            callable::<T, H>(f),
        ensures
            builder.wf(),
            builder.routes() == self.routes().register(Verb::Post, name@, f),
            builder.shared_service() == self.shared_service(),
            builder.listen_address() == self.listen_address(),
            builder.held_runtime() == self.held_runtime(),
    {
        let mut builder = self;
        builder.post_functions.insert(name, f);
        builder
    }

    /// The handlers for `GET`.
    pub fn get_functions(&self) -> (table: &NameMap<H>)
        requires
            self.wf(),
        ensures
            table.wf(),
            table@ == self.routes().get,
            all_callable::<T, H>(table@),
    {
        &self.get_functions
    }

    /// The handlers for `POST`.
    pub fn post_functions(&self) -> (table: &NameMap<H>)
        requires
            self.wf(),
        ensures
            table.wf(),
            table@ == self.routes().post,
            all_callable::<T, H>(table@),
    {
        &self.post_functions
    }

    /// The runtime that the executor was made with.
    pub fn runtime(&self) -> (runtime: &tokio::runtime::Runtime)
        ensures
            *runtime == self.held_runtime(),
    {
        &self.runtime
    }

    /// The service that every handler is called with.
    pub fn service(&self) -> (service: &Arc<T>)
        ensures
            *service == self.shared_service(),
    {
        &self.service
    }

    /// The address that the service listens on.
    pub fn socket_url(&self) -> (url: &str)
        ensures
            url@ == self.listen_address(),
    {
        self.socket_url.as_str()
    }

    /// The handler registered for `verb` and `name`, if there is one.
    pub fn resolve(&self, verb: Verb, name: &str) -> (handler: Option<&H>)
        requires
            self.wf(),
        ensures
            match handler {
                Some(found) => self.routes().resolve(verb, name@) == Some(*found),
                None => self.routes().resolve(verb, name@) is None,
            },
    {
        match verb {
            Verb::Get => self.get_functions.get(name),
            Verb::Post => self.post_functions.get(name),
        }
    }

    /// Answers a request for `func_name` from `funcs`: calls the handler
    /// registered under that name with `runtime_handler`, the shared
    /// service and `input_data`, and says what follows from its outcome.
    /// Where no handler is registered, the answer is `NotFound` and no
    /// handler is called.
    pub fn query_handle(
        &self,
        funcs: &NameMap<H>,
        func_name: &str,
        input_data: Option<&str>,
        runtime_handler: tokio::runtime::Handle,
    ) -> (step: Step)
        requires
            funcs.wf(),
            all_callable::<T, H>(funcs@),
        ensures
            answered(
                funcs@,
                func_name@,
                runtime_handler,
                self.shared_service(),
                opt_str_text(input_data),
                step,
            ),
    {
        let result = match funcs.get(func_name) {
            Some(func) => func(runtime_handler, self.service.clone(), input_data),
            None => RasResult::Sync(HttpStatus::NotFound, None),
        };
        result.step()
    }

    /// `step` is how this executor answers `request`.
    pub open spec fn dispatched(
        &self,
        request: RequestText,
        handle: tokio::runtime::Handle,
        step: Step,
    ) -> bool {
        answered(
            self.routes().table(request.verb),
            request.function,
            handle,
            self.shared_service(),
            request.input,
            step,
        )
    }

    /// Handles what was read off one connection: `buffer` is the buffer
    /// that was read into, `read` says how the read ended. Finds the
    /// request, calls its handler, and says what follows. Whatever is wrong
    /// with the read or the request is answered with its status and no
    /// data, and no handler is called.
    pub fn connection_handler(
        &self,
        buffer: &[u8],
        read: ReadEvent,
        runtime_handler: tokio::runtime::Handle,
    ) -> (step: Step)
        requires
            self.wf(),
        ensures
            match received(buffer@, read) {
                Ok(request) => self.dispatched(request, runtime_handler, step),
                Err(status) => step == Step::Reply(status, None),
            },
    {
        let request = match read_request(buffer, read) {
            Ok(request) => request,
            Err(status) => { return Step::Reply(status, None); },
        };
        let input_data = match &request.input {
            Some(text) => Some(text.as_str()),
            None => None,
        };
        match request.verb {
            Verb::Get => self.query_handle(
                &self.get_functions,
                request.function.as_str(),
                input_data,
                runtime_handler,
            ),
            Verb::Post => self.query_handle(
                &self.post_functions,
                request.function.as_str(),
                input_data,
                runtime_handler,
            ),
        }
    }
}

} // verus!
