//! The request pipeline: routing, the file, CGI and directory stages, and
//! the per-connection state machine that drives them.

pub mod connection;
pub mod directory;
pub mod file;
pub mod router;

use crate::error::{error_text, Error, ErrorKind};
use crate::mime::mime_of;
use crate::pipe::connection::{line_from_bytes, line_of};
use crate::pipe::directory::{
    index_locator, list_file_path, listing_content, listing_response, DirEntry, LISTING_MIME,
    LIST_FILE,
};
use crate::pipe::file::{
    cgi_reply, decode_cgi_output, plain_file_response, resolve_path, resolved_path,
    response_result, without_leading_slash,
};
use crate::pipe::router::{
    chosen_host, is_plain_host, ends_with_slash, host_dir, is_directory_locator, join_path, select_host,
    ANY_HOST,
};
use crate::protocol::request::{request_of_line, Request, RequestView};
use crate::protocol::response::{header_bytes, Response, ResponseView, StatusCode};
use crate::protocol::{NOT_ALLOWED, NOT_SERVED, UPLOAD_TOO_BIG, WRONG_DATA_SIZE};
use vstd::prelude::*;

verus! {

/// The index files that a directory locator serves before its listing.
pub const INDEX_GMI: &'static str = "index.gmi";

pub const INDEX_TXT: &'static str = "index.txt";

/// Which file the pipeline is serving, and what follows when serving it fails.
pub enum Attempt {
    /// The file that the locator names: a failure is a server error.
    Direct,
    /// The `index.gmi` of the directory request: a failure moves on to `index.txt`.
    GmiIndex(Request),
    /// The `index.txt` of the directory request: a failure moves on to the listing.
    TxtIndex(Request),
}

/// Where a connection stands, waiting for the outcome of its last action.
pub enum Stage {
    ReadingLine,
    ReadingBody(Request),
    ProbingHosts(Request),
    ProbingExecutable { request: Request, path: String, attempt: Attempt },
    ReadingFile { path: String, attempt: Attempt },
    RunningCgi { attempt: Attempt },
    ReadingListFile(Request),
    ListingEntries { request: Request, header: Vec<u8> },
    Writing,
    Done,
}

/// The outcome of an action, handed back by whoever performed it.
pub enum Event {
    /// The bytes read up to and including a line feed.
    Line(Vec<u8>),
    /// The body bytes read, which may be short when the peer closed.
    Body(Vec<u8>),
    /// Whether the directories of `any` and of the request's host exist.
    Hosts { any_exists: bool, host_exists: bool },
    /// Whether the file is an executable regular file.
    Executable(bool),
    /// A file's bytes or a program's output, or the failure to get them.
    Content(Result<Vec<u8>, Error>),
    /// A directory's entries in the order the file system gives them.
    Entries(Result<Vec<DirEntry>, Error>),
    /// The response went out.
    Written,
    /// The transport failed.
    Failed(Error),
}

/// What to do next.
pub enum Action {
    ReadLine,
    ReadBody(usize),
    ProbeHosts { any_dir: String, host_dir: String },
    ProbeExecutable(String),
    ReadFile(String),
    /// Run the program in its own directory, with `input` on its standard input.
    RunCgi { path: String, input: Vec<u8> },
    ListEntries(String),
    /// Write the header, then the content if any.
    Respond { header: Vec<u8>, content: Option<Vec<u8>> },
    Close,
    /// Close without writing anything, failing the connection with this error.
    Abort(Error),
}

pub enum AttemptView {
    Direct,
    GmiIndex(RequestView),
    TxtIndex(RequestView),
}

pub enum StageView {
    ReadingLine,
    ReadingBody(RequestView),
    ProbingHosts(RequestView),
    ProbingExecutable { request: RequestView, path: Seq<char>, attempt: AttemptView },
    ReadingFile { path: Seq<char>, attempt: AttemptView },
    RunningCgi { attempt: AttemptView },
    ReadingListFile(RequestView),
    ListingEntries { request: RequestView, header: Seq<u8> },
    Writing,
    Done,
}

pub enum ActionView {
    ReadLine,
    ReadBody(usize),
    ProbeHosts { any_dir: Seq<char>, host_dir: Seq<char> },
    ProbeExecutable(Seq<char>),
    ReadFile(Seq<char>),
    RunCgi { path: Seq<char>, input: Seq<u8> },
    ListEntries(Seq<char>),
    Respond { header: Seq<u8>, content: Option<Seq<u8>> },
    Close,
    Abort((ErrorKind, Seq<char>)),
}

impl View for Attempt {
    type V = AttemptView;

    open spec fn view(&self) -> AttemptView {
        match self {
            Attempt::Direct => AttemptView::Direct,
            Attempt::GmiIndex(r) => AttemptView::GmiIndex(r@),
            Attempt::TxtIndex(r) => AttemptView::TxtIndex(r@),
        }
    }
}

impl View for Stage {
    type V = StageView;

    open spec fn view(&self) -> StageView {
        match self {
            Stage::ReadingLine => StageView::ReadingLine,
            Stage::ReadingBody(r) => StageView::ReadingBody(r@),
            Stage::ProbingHosts(r) => StageView::ProbingHosts(r@),
            Stage::ProbingExecutable { request, path, attempt } => StageView::ProbingExecutable {
                request: request@,
                path: path@,
                attempt: attempt@,
            },
            Stage::ReadingFile { path, attempt } => StageView::ReadingFile {
                path: path@,
                attempt: attempt@,
            },
            Stage::RunningCgi { attempt } => StageView::RunningCgi { attempt: attempt@ },
            Stage::ReadingListFile(r) => StageView::ReadingListFile(r@),
            Stage::ListingEntries { request, header } => StageView::ListingEntries {
                request: request@,
                header: header@,
            },
            Stage::Writing => StageView::Writing,
            Stage::Done => StageView::Done,
        }
    }
}

impl View for Action {
    type V = ActionView;

    open spec fn view(&self) -> ActionView {
        match self {
            Action::ReadLine => ActionView::ReadLine,
            Action::ReadBody(n) => ActionView::ReadBody(*n),
            Action::ProbeHosts { any_dir, host_dir } => ActionView::ProbeHosts {
                any_dir: any_dir@,
                host_dir: host_dir@,
            },
            Action::ProbeExecutable(p) => ActionView::ProbeExecutable(p@),
            Action::ReadFile(p) => ActionView::ReadFile(p@),
            Action::RunCgi { path, input } => ActionView::RunCgi { path: path@, input: input@ },
            Action::ListEntries(p) => ActionView::ListEntries(p@),
            Action::Respond { header, content } => ActionView::Respond {
                header: header@,
                content: content.deep_view(),
            },
            Action::Close => ActionView::Close,
            Action::Abort(e) => ActionView::Abort(e@),
        }
    }
}

pub open spec fn client_error(msg: Seq<char>) -> ResponseView {
    ResponseView { status_code: StatusCode::ClientError, status_line: msg, content: None }
}

pub open spec fn server_error(msg: Seq<char>) -> ResponseView {
    ResponseView { status_code: StatusCode::ServerError, status_line: msg, content: None }
}

/// Writing a response: its header, then its content.
pub open spec fn respond(r: ResponseView) -> (StageView, ActionView) {
    (
        StageView::Writing,
        ActionView::Respond {
            header: header_bytes(r.status_code, r.status_line),
            content: r.content,
        },
    )
}

/// Routing starts by probing the directories of `any` and of the host.
pub open spec fn route_start(request: RequestView, root: Seq<char>) -> (StageView, ActionView) {
    (
        StageView::ProbingHosts(request),
        ActionView::ProbeHosts {
            any_dir: join_path(root, ANY_HOST@),
            host_dir: join_path(root, request.host),
        },
    )
}

/// Serving a file starts by asking whether it is an executable.
pub open spec fn file_start(request: RequestView, attempt: AttemptView, root: Seq<char>) -> (
    StageView,
    ActionView,
) {
    let path = resolved_path(root, request.host, request.locator);
    (
        StageView::ProbingExecutable { request, path, attempt },
        ActionView::ProbeExecutable(path),
    )
}

/// A directory locator tries its `index.gmi` first; any other, its own file.
pub open spec fn dispatch(request: RequestView, root: Seq<char>) -> (StageView, ActionView) {
    if ends_with_slash(request.locator) {
        file_start(
            RequestView { locator: request.locator + INDEX_GMI@, ..request },
            AttemptView::GmiIndex(request),
            root,
        )
    } else {
        file_start(request, AttemptView::Direct, root)
    }
}

/// What follows the outcome of serving a file: a response goes out; a
/// failure is a server error, or moves on to the next index file, or to the
/// listing.
pub open spec fn finish(
    outcome: Result<ResponseView, (ErrorKind, Seq<char>)>,
    attempt: AttemptView,
    root: Seq<char>,
) -> (StageView, ActionView) {
    match outcome {
        Ok(r) => respond(r),
        Err(e) => match attempt {
            AttemptView::Direct => respond(server_error(error_text(e.0, e.1))),
            AttemptView::GmiIndex(dir) => file_start(
                RequestView { locator: dir.locator + INDEX_TXT@, ..dir },
                AttemptView::TxtIndex(dir),
                root,
            ),
            AttemptView::TxtIndex(dir) => (
                StageView::ReadingListFile(dir),
                ActionView::ReadFile(
                    join_path(resolved_path(root, dir.host, dir.locator), LIST_FILE@),
                ),
            ),
        },
    }
}

/// The empty body that a request without one hands to a program.
pub open spec fn body_of(request: RequestView) -> Seq<u8> {
    match request.data {
        Some(d) => d,
        None => Seq::empty(),
    }
}

/// The transition of a connection on an event: its next stage and action.
/// A request line that cannot be read, or a failed write, aborts the
/// connection with its error; an event that its stage does not wait for
/// closes the connection.
pub open spec fn next(stage: StageView, event: Event, root: Seq<char>, max_upload_size: usize) -> (
    StageView,
    ActionView,
) {
    let close = (StageView::Done, ActionView::Close);
    match stage {
        StageView::ReadingLine => match event {
            Event::Line(b) => match line_of(b@) {
                Err(e) => (StageView::Done, ActionView::Abort(e)),
                Ok(line) => match request_of_line(line) {
                    Err(m) => respond(client_error(error_text(ErrorKind::RequestError, m))),
                    Ok(request) => if request.data_len > max_upload_size {
                        respond(
                            client_error(error_text(ErrorKind::RequestError, UPLOAD_TOO_BIG@)),
                        )
                    } else if request.data_len == 0 {
                        route_start(request, root)
                    } else {
                        (StageView::ReadingBody(request), ActionView::ReadBody(request.data_len))
                    },
                },
            },
            Event::Failed(e) => (StageView::Done, ActionView::Abort(e@)),
            _ => close,
        },
        StageView::ReadingBody(request) => match event {
            Event::Body(b) => if b@.len() == request.data_len {
                route_start(RequestView { data: Some(b@), ..request }, root)
            } else {
                respond(client_error(error_text(ErrorKind::RequestError, WRONG_DATA_SIZE@)))
            },
            Event::Failed(e) => respond(server_error(error_text(e.kind, e.msg@))),
            _ => close,
        },
        StageView::ProbingHosts(request) => match event {
            Event::Hosts { any_exists, host_exists } => match chosen_host(
                request.host,
                host_exists,
                any_exists,
            ) {
                Some(h) => dispatch(RequestView { host: h, ..request }, root),
                None => respond(server_error(NOT_SERVED@)),
            },
            _ => close,
        },
        StageView::ProbingExecutable { request, path, attempt } => match event {
            Event::Executable(executable) => if executable {
                (
                    StageView::RunningCgi { attempt },
                    ActionView::RunCgi { path, input: body_of(request) },
                )
            } else if request.data_len > 0 {
                finish(Ok(client_error(NOT_ALLOWED@)), attempt, root)
            } else {
                (StageView::ReadingFile { path, attempt }, ActionView::ReadFile(path))
            },
            _ => close,
        },
        StageView::ReadingFile { path, attempt } => match event {
            Event::Content(Ok(b)) => finish(
                Ok(
                    ResponseView {
                        status_code: StatusCode::Success,
                        status_line: mime_of(path),
                        content: Some(b@),
                    },
                ),
                attempt,
                root,
            ),
            Event::Content(Err(e)) => finish(Err(e@), attempt, root),
            _ => close,
        },
        StageView::RunningCgi { attempt } => match event {
            Event::Content(Ok(out)) => finish(cgi_reply(out@), attempt, root),
            Event::Content(Err(e)) => finish(Err(e@), attempt, root),
            _ => close,
        },
        StageView::ReadingListFile(request) => match event {
            Event::Content(Ok(h)) => (
                StageView::ListingEntries { request, header: h@ },
                ActionView::ListEntries(resolved_path(root, request.host, request.locator)),
            ),
            Event::Content(Err(_)) => respond(
                server_error(error_text(ErrorKind::RequestError, NOT_ALLOWED@)),
            ),
            _ => close,
        },
        StageView::ListingEntries { request, header } => match event {
            Event::Entries(Ok(entries)) => respond(
                ResponseView {
                    status_code: StatusCode::Success,
                    status_line: LISTING_MIME@,
                    content: Some(listing_content(header, request.locator, entries@)),
                },
            ),
            Event::Entries(Err(e)) => respond(server_error(error_text(e.kind, e.msg@))),
            _ => close,
        },
        StageView::Writing => match event {
            Event::Failed(e) => (StageView::Done, ActionView::Abort(e@)),
            _ => close,
        },
        StageView::Done => close,
    }
}

/// Admits a request whose announced body is within the upload limit.
pub fn upload_data_size_check(request: Request, max_allowed: usize) -> (r: Result<Request, Error>)
    ensures
        r is Ok <==> request.data_len <= max_allowed,
        r matches Ok(q) ==> q == request,
        r matches Err(e) ==> e@ == (ErrorKind::RequestError, UPLOAD_TOO_BIG@),
{
    if max_allowed >= request.data_len {
        Ok(request)
    } else {
        Err(Error::new_request_error(UPLOAD_TOO_BIG))
    }
}

/// Turns a failure of the pipeline into a server error that carries its text.
pub fn error_handler_middleware(result: Result<Response, Error>) -> (r: Response)
    ensures
        r@ == match result {
            Ok(q) => q@,
            Err(e) => server_error(error_text(e.kind, e.msg@)),
        },
{
    match result {
        Err(e) => Response::new_server_error(e.to_text()),
        Ok(r) => r,
    }
}

fn copy_bytes(v: &Vec<u8>) -> (r: Vec<u8>)
    ensures
        r@ == v@,
{
    let mut r: Vec<u8> = Vec::new();
    let mut i: usize = 0;
    while i < v.len()
        invariant
            i <= v@.len(),
            r@ == v@.take(i as int),
        decreases v@.len() - i,
    {
        r.push(v[i]);
        assert(r@ =~= v@.take(i + 1));
        i = i + 1;
    }
    assert(v@.take(v@.len() as int) =~= v@);
    r
}

/// A request like `request`, with another locator.
fn with_locator(request: &Request, locator: String) -> (r: Request)
    ensures
        r@ == (RequestView { locator: locator@, ..request@ }),
{
    let data = match &request.data {
        Some(d) => Some(copy_bytes(d)),
        None => None,
    };
    Request { host: request.host.clone(), locator, data_len: request.data_len, data }
}

fn body_input(request: &Request) -> (r: Vec<u8>)
    ensures
        r@ == body_of(request@),
{
    match &request.data {
        Some(d) => copy_bytes(d),
        None => Vec::new(),
    }
}

fn close() -> (r: (Stage, Action))
    ensures
        r.0@ == StageView::Done,
        r.1@ == ActionView::Close,
{
    (Stage::Done, Action::Close)
}

fn respond_with(response: Response) -> (r: (Stage, Action))
    ensures
        (r.0@, r.1@) == respond(response@),
{
    let header = response.render_header();
    (Stage::Writing, Action::Respond { header, content: response.content })
}

fn route_start_with(request: Request, root: &String) -> (r: (Stage, Action))
    ensures
        (r.0@, r.1@) == route_start(request@, root@),
{
    let any_dir = host_dir(root, &String::from_str(ANY_HOST));
    let own_dir = host_dir(root, &request.host);
    (Stage::ProbingHosts(request), Action::ProbeHosts { any_dir, host_dir: own_dir })
}

fn file_start_with(request: Request, attempt: Attempt, root: &String) -> (r: (Stage, Action))
    ensures
        (r.0@, r.1@) == file_start(request@, attempt@, root@),
{
    let path = resolve_path(root, &request.host, &request.locator);
    let probe = path.clone();
    (Stage::ProbingExecutable { request, path, attempt }, Action::ProbeExecutable(probe))
}

/// Starts serving the file that a request names: a failure will be a server error.
pub fn process_file(request: Request, root: &String) -> (r: (Stage, Action))
    ensures
        (r.0@, r.1@) == file_start(request@, AttemptView::Direct, root@),
{
    file_start_with(request, Attempt::Direct, root)
}

/// Starts serving a directory request: its `index.gmi`, then its
/// `index.txt`, then its listing.
pub fn process_directory(request: Request, root: &String) -> (r: (Stage, Action))
    ensures
        (r.0@, r.1@) == file_start(
            RequestView { locator: request@.locator + INDEX_GMI@, ..request@ },
            AttemptView::GmiIndex(request@),
            root@,
        ),
{
    let gmi = with_locator(&request, index_locator(&request.locator, INDEX_GMI));
    file_start_with(gmi, Attempt::GmiIndex(request), root)
}

/// Serves a request from its selected host: a directory or a file.
pub fn process_request(request: Request, root: &String) -> (r: (Stage, Action))
    ensures
        (r.0@, r.1@) == dispatch(request@, root@),
{
    if is_directory_locator(request.locator.clone()) {
        process_directory(request, root)
    } else {
        process_file(request, root)
    }
}

/// Routes a request once the directories of `any` and of its host have been
/// probed: the chosen host replaces the requested one, or the host is not served.
pub fn route(request: Request, any_exists: bool, host_exists: bool, root: &String) -> (r: (
    Stage,
    Action,
))
    ensures
        (r.0@, r.1@) == match chosen_host(request@.host, host_exists, any_exists) {
            Some(h) => dispatch(RequestView { host: h, ..request@ }, root@),
            None => respond(server_error(NOT_SERVED@)),
        },
{
    let Request { host, locator, data_len, data } = request;
    match select_host(host, host_exists, any_exists) {
        Some(h) => process_request(Request { host: h, locator, data_len, data }, root),
        None => respond_with(Response::new_server_error(String::from_str(NOT_SERVED))),
    }
}

fn finish_with(outcome: Result<Response, Error>, attempt: Attempt, root: &String) -> (r: (
    Stage,
    Action,
))
    ensures
        (r.0@, r.1@) == finish(response_result(outcome), attempt@, root@),
{
    match outcome {
        Ok(response) => respond_with(response),
        Err(e) => match attempt {
            Attempt::Direct => respond_with(error_handler_middleware(Err(e))),
            Attempt::GmiIndex(dir) => {
                let txt = with_locator(&dir, index_locator(&dir.locator, INDEX_TXT));
                file_start_with(txt, Attempt::TxtIndex(dir), root)
            },
            Attempt::TxtIndex(dir) => {
                let path = resolve_path(root, &dir.host, &dir.locator);
                let list_file = list_file_path(&path);
                (Stage::ReadingListFile(dir), Action::ReadFile(list_file))
            },
        },
    }
}

/// One connection: the settings it serves under, and where it stands.
pub struct Session {
    pub root_path: String,
    pub max_upload_size: usize,
    pub stage: Stage,
}

impl Session {
    /// A connection that starts by reading its request line.
    pub fn start(root_path: String, max_upload_size: usize) -> (r: (Session, Action))
        ensures
            r.0.root_path == root_path,
            r.0.max_upload_size == max_upload_size,
            r.0.stage@ == StageView::ReadingLine,
            r.1@ == ActionView::ReadLine,
    {
        (Session { root_path, max_upload_size, stage: Stage::ReadingLine }, Action::ReadLine)
    }

    pub fn is_done(&self) -> (r: bool)
        ensures
            r == (self.stage@ == StageView::Done),
    {
        match self.stage {
            Stage::Done => true,
            _ => false,
        }
    }

    fn on_line(event: Event, root: &String, max_upload_size: usize) -> (r: (Stage, Action))
        ensures
            (r.0@, r.1@) == next(StageView::ReadingLine, event, root@, max_upload_size),
    {
        let bytes = match event {
            Event::Line(b) => b,
            Event::Failed(e) => {
                return (Stage::Done, Action::Abort(e));
            },
            _ => {
                return close();
            },
        };
        let line = match line_from_bytes(bytes) {
            Ok(l) => l,
            Err(e) => {
                return (Stage::Done, Action::Abort(e));
            },
        };
        match Request::create_from_request_line(line) {
            Err(e) => respond_with(Response::new_client_error(e.to_text())),
            Ok(request) => match upload_data_size_check(request, max_upload_size) {
                Err(e) => respond_with(Response::new_client_error(e.to_text())),
                Ok(request) => if request.data_len == 0 {
                    route_start_with(request, root)
                } else {
                    let n = request.data_len;
                    (Stage::ReadingBody(request), Action::ReadBody(n))
                },
            },
        }
    }

    fn on_body(request: Request, event: Event, root: &String, max_upload_size: usize) -> (r: (
        Stage,
        Action,
    ))
        ensures
            (r.0@, r.1@) == next(StageView::ReadingBody(request@), event, root@, max_upload_size),
    {
        match event {
            Event::Body(b) => match request.append_data(b) {
                Ok(full) => route_start_with(full, root),
                Err(e) => respond_with(Response::new_client_error(e.to_text())),
            },
            Event::Failed(e) => respond_with(error_handler_middleware(Err(e))),
            _ => close(),
        }
    }

    fn on_hosts(request: Request, event: Event, root: &String, max_upload_size: usize) -> (r: (
        Stage,
        Action,
    ))
        ensures
            (r.0@, r.1@) == next(StageView::ProbingHosts(request@), event, root@, max_upload_size),
    {
        match event {
            Event::Hosts { any_exists, host_exists } => route(
                request,
                any_exists,
                host_exists,
                root,
            ),
            _ => close(),
        }
    }

    fn on_executable(
        request: Request,
        path: String,
        attempt: Attempt,
        event: Event,
        root: &String,
        max_upload_size: usize,
    ) -> (r: (Stage, Action))
        ensures
            (r.0@, r.1@) == next(
                StageView::ProbingExecutable { request: request@, path: path@, attempt: attempt@ },
                event,
                root@,
                max_upload_size,
            ),
    {
        match event {
            Event::Executable(executable) => if executable {
                let input = body_input(&request);
                (Stage::RunningCgi { attempt }, Action::RunCgi { path, input })
            } else if request.data_len > 0 {
                finish_with(
                    Ok(Response::new_client_error(String::from_str(NOT_ALLOWED))),
                    attempt,
                    root,
                )
            } else {
                let read = path.clone();
                (Stage::ReadingFile { path, attempt }, Action::ReadFile(read))
            },
            _ => close(),
        }
    }

    fn on_file(path: String, attempt: Attempt, event: Event, root: &String, max_upload_size: usize) -> (r: (
        Stage,
        Action,
    ))
        ensures
            (r.0@, r.1@) == next(
                StageView::ReadingFile { path: path@, attempt: attempt@ },
                event,
                root@,
                max_upload_size,
            ),
    {
        match event {
            Event::Content(Ok(b)) => finish_with(Ok(plain_file_response(path, b)), attempt, root),
            Event::Content(Err(e)) => finish_with(Err(e), attempt, root),
            _ => close(),
        }
    }

    fn on_cgi(attempt: Attempt, event: Event, root: &String, max_upload_size: usize) -> (r: (
        Stage,
        Action,
    ))
        ensures
            (r.0@, r.1@) == next(
                StageView::RunningCgi { attempt: attempt@ },
                event,
                root@,
                max_upload_size,
            ),
    {
        match event {
            Event::Content(Ok(out)) => finish_with(decode_cgi_output(out), attempt, root),
            Event::Content(Err(e)) => finish_with(Err(e), attempt, root),
            _ => close(),
        }
    }

    fn on_list_file(request: Request, event: Event, root: &String, max_upload_size: usize) -> (r: (
        Stage,
        Action,
    ))
        ensures
            (r.0@, r.1@) == next(
                StageView::ReadingListFile(request@),
                event,
                root@,
                max_upload_size,
            ),
    {
        match event {
            Event::Content(Ok(header)) => {
                let dir = resolve_path(root, &request.host, &request.locator);
                (Stage::ListingEntries { request, header }, Action::ListEntries(dir))
            },
            Event::Content(Err(_)) => respond_with(
                error_handler_middleware(Err(Error::new_request_error(NOT_ALLOWED))),
            ),
            _ => close(),
        }
    }

    fn on_entries(
        request: Request,
        header: Vec<u8>,
        event: Event,
        root: &String,
        max_upload_size: usize,
    ) -> (r: (Stage, Action))
        ensures
            (r.0@, r.1@) == next(
                StageView::ListingEntries { request: request@, header: header@ },
                event,
                root@,
                max_upload_size,
            ),
    {
        match event {
            Event::Entries(Ok(entries)) => respond_with(
                listing_response(&request.locator, header, &entries),
            ),
            Event::Entries(Err(e)) => respond_with(error_handler_middleware(Err(e))),
            _ => close(),
        }
    }

    /// Moves the connection on by one event.
    pub fn step(self, event: Event) -> (r: (Session, Action))
        ensures
            (r.0.stage@, r.1@) == next(self.stage@, event, self.root_path@, self.max_upload_size),
            r.0.root_path == self.root_path,
            r.0.max_upload_size == self.max_upload_size,
    {
        let Session { root_path, max_upload_size, stage } = self;
        let (stage, action) = match stage {
            Stage::ReadingLine => Session::on_line(event, &root_path, max_upload_size),
            Stage::ReadingBody(request) => Session::on_body(
                request,
                event,
                &root_path,
                max_upload_size,
            ),
            Stage::ProbingHosts(request) => Session::on_hosts(
                request,
                event,
                &root_path,
                max_upload_size,
            ),
            Stage::ProbingExecutable { request, path, attempt } => Session::on_executable(
                request,
                path,
                attempt,
                event,
                &root_path,
                max_upload_size,
            ),
            Stage::ReadingFile { path, attempt } => Session::on_file(
                path,
                attempt,
                event,
                &root_path,
                max_upload_size,
            ),
            Stage::RunningCgi { attempt } => Session::on_cgi(
                attempt,
                event,
                &root_path,
                max_upload_size,
            ),
            Stage::ReadingListFile(request) => Session::on_list_file(
                request,
                event,
                &root_path,
                max_upload_size,
            ),
            Stage::ListingEntries { request, header } => Session::on_entries(
                request,
                header,
                event,
                &root_path,
                max_upload_size,
            ),
            Stage::Writing => match event {
                Event::Failed(e) => (Stage::Done, Action::Abort(e)),
                _ => close(),
            },
            Stage::Done => close(),
        };
        (Session { root_path, max_upload_size, stage }, action)
    }
}

proof fn lemma_join_path_prefix(base: Seq<char>, part: Seq<char>)
    ensures
        join_path(base, part).len() >= base.len(),
        join_path(base, part).take(base.len() as int) == base,
{
    assert(join_path(base, part).take(base.len() as int) =~= base);
}

/// The file that a request resolves to lies under the directory of its host.
pub proof fn lemma_resolved_under_host(root: Seq<char>, host: Seq<char>, locator: Seq<char>)
    ensures
        ({
            let dir = join_path(root, host);
            let p = resolved_path(root, host, locator);
            p.len() >= dir.len() && p.take(dir.len() as int) == dir
        }),
{
    lemma_join_path_prefix(join_path(root, host), without_leading_slash(locator));
}

/// Virtual hosting: a host with a directory of its own is served from it,
/// whether or not `any` exists; a host without one, or whose name is not a
/// plain directory name, is served from `any` when that exists; with
/// neither, the answer is the server error that the host is not served.
/// The file probed lies under the chosen host's directory.
pub proof fn lemma_virtual_host_selection(
    request: RequestView,
    root: Seq<char>,
    max_upload_size: usize,
    any_exists: bool,
    host_exists: bool,
)
    ensures
        ({
            let r = next(
                StageView::ProbingHosts(request),
                Event::Hosts { any_exists, host_exists },
                root,
                max_upload_size,
            );
            let own = host_exists && is_plain_host(request.host);
            &&& own ==> r == dispatch(request, root)
            &&& !own && any_exists ==> r == dispatch(
                RequestView { host: ANY_HOST@, ..request },
                root,
            )
            &&& !own && !any_exists ==> r == respond(server_error(NOT_SERVED@))
            &&& (own || any_exists) ==> (r.1 matches ActionView::ProbeExecutable(p) && ({
                let dir = join_path(root, if own { request.host } else { ANY_HOST@ });
                p.len() >= dir.len() && p.take(dir.len() as int) == dir
            }))
        }),
{
    let h = if host_exists && is_plain_host(request.host) { request.host } else { ANY_HOST@ };
    lemma_resolved_under_host(root, h, request.locator);
    lemma_resolved_under_host(root, h, request.locator + INDEX_GMI@);
}

/// Upload admission: a request line that announces a body over the limit is
/// answered with a client error, and after that answer the connection only
/// ends: the body is never asked for.
pub proof fn lemma_upload_admission(bytes: Vec<u8>, root: Seq<char>, max_upload_size: usize)
    requires
        line_of(bytes@) is Ok,
        request_of_line(line_of(bytes@)->Ok_0) is Ok,
        request_of_line(line_of(bytes@)->Ok_0)->Ok_0.data_len > max_upload_size,
    ensures
        next(StageView::ReadingLine, Event::Line(bytes), root, max_upload_size) == respond(
            client_error(error_text(ErrorKind::RequestError, UPLOAD_TOO_BIG@)),
        ),
        forall|e: Event| #[trigger]
            next(StageView::Writing, e, root, max_upload_size).0 == StageView::Done && (next(
                StageView::Writing,
                e,
                root,
                max_upload_size,
            ).1 is Close || next(StageView::Writing, e, root, max_upload_size).1 is Abort),
{
}

/// Serving a plain file: once a host is chosen for a request without a body
/// whose locator is not a directory, the file under that host is probed,
/// read when it is not executable, and sent with its guessed type and its
/// bytes, and nothing else.
pub proof fn lemma_plain_file_served(
    request: RequestView,
    root: Seq<char>,
    max_upload_size: usize,
    any_exists: bool,
    host_exists: bool,
    bytes: Vec<u8>,
)
    requires
        request.data_len == 0,
        !ends_with_slash(request.locator),
        chosen_host(request.host, host_exists, any_exists) is Some,
    ensures
        ({
            let h = chosen_host(request.host, host_exists, any_exists)->Some_0;
            let path = resolved_path(root, h, request.locator);
            let s1 = next(
                StageView::ProbingHosts(request),
                Event::Hosts { any_exists, host_exists },
                root,
                max_upload_size,
            );
            let s2 = next(s1.0, Event::Executable(false), root, max_upload_size);
            let s3 = next(s2.0, Event::Content(Ok(bytes)), root, max_upload_size);
            &&& s1.1 == ActionView::ProbeExecutable(path)
            &&& s2.1 == ActionView::ReadFile(path)
            &&& s3 == respond(
                ResponseView {
                    status_code: StatusCode::Success,
                    status_line: mime_of(path),
                    content: Some(bytes@),
                },
            )
        }),
{
}

} // verus!
