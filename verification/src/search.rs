//! A complete search: the engine driven against the functions of a host.
//!
//! The host is given as three functions, one for each kind of question the
//! engine asks. Nothing is assumed of what they return. Whatever they return,
//! the outcome is that of the engine under their answers; and where they speak
//! for a host that the model of [`crate::host`] describes, it is the outcome
//! which that host calls for.

use vstd::prelude::*;
use crate::discovery::{Discovery, DiscoveryView, MAX_QUERIES};
use crate::protocol::{
    log_views, of_one_strategy, outcome_view, Answer, AnswerView, DiscoveryError, LogPath,
    LogPathView, OutcomeView, Platform, RegistryReadError, Request,
};
use crate::host::Host;

verus! {

/// One question of the engine together with the answer it was given.
pub struct Exchange {
    pub request: Request,
    pub answer: Answer,
}

/// Whether the answer of `exchange` is of the kind its request calls for and
/// is one that the host function for that kind may return for it.
pub open spec fn given_by_host<R, V, P>(
    exchange: Exchange,
    read_registry: R,
    read_variable: V,
    path_exists: P,
) -> bool where
    R: Fn(String, String) -> Result<String, RegistryReadError>,
    V: Fn(String) -> Option<String>,
    P: Fn(String) -> bool,
 {
    match exchange.request {
        Request::ReadRegistry { key, value } => exchange.answer matches Answer::Registry(got)
            && read_registry.ensures((key, value), got),
        Request::ReadVariable { name } => exchange.answer matches Answer::Variable(got)
            && read_variable.ensures((name,), got),
        Request::ProbePath { path } => exchange.answer matches Answer::Exists(got)
            && path_exists.ensures((path,), got),
    }
}

/// The engine after it has taken the answers of `transcript`, in order, from
/// `state` on.
pub open spec fn replay(state: DiscoveryView, transcript: Seq<Exchange>) -> DiscoveryView
    decreases transcript.len(),
{
    if transcript.len() == 0 {
        state
    } else {
        replay(state, transcript.drop_last()).step(transcript.last().answer@)
    }
}

/// Whether `transcript` records a search on a host of family `platform`: each
/// request is the one the engine had pending after the exchanges before it,
/// and each answer was given by the host functions.
pub open spec fn conducted<R, V, P>(
    platform: Platform,
    transcript: Seq<Exchange>,
    read_registry: R,
    read_variable: V,
    path_exists: P,
) -> bool where
    R: Fn(String, String) -> Result<String, RegistryReadError>,
    V: Fn(String) -> Option<String>,
    P: Fn(String) -> bool,
 {
    forall|i: int|
        #![trigger transcript[i]]
        0 <= i < transcript.len() ==> {
            &&& replay(DiscoveryView::initial(platform), transcript.take(i)).pending() == Some(
                transcript[i].request@,
            )
            &&& given_by_host(transcript[i], read_registry, read_variable, path_exists)
        }
}

/// Whether the three host functions answer as `host` does: whatever they
/// return for a request is what the model holds for it.
pub open spec fn speaks_for<R, V, P>(
    host: Host,
    read_registry: R,
    read_variable: V,
    path_exists: P,
) -> bool where
    R: Fn(String, String) -> Result<String, RegistryReadError>,
    V: Fn(String) -> Option<String>,
    P: Fn(String) -> bool,
 {
    &&& forall|key: String, value: String, got: Result<String, RegistryReadError>|
        #[trigger] read_registry.ensures((key, value), got) ==> (Answer::Registry(got))@
            == AnswerView::Registry(host.read_registry(key@, value@))
    &&& forall|name: String, got: Option<String>|
        #[trigger] read_variable.ensures((name,), got) ==> (Answer::Variable(got))@
            == AnswerView::Variable(host.read_variable(name@))
    &&& forall|path: String, got: bool|
        #[trigger] path_exists.ensures((path,), got) ==> got == host.existing.contains(path@)
}

/// Searches the host for the game client's logs.
///
/// The engine is started for `platform` and run to rest; each of its requests
/// goes to the host function of its kind. The host functions are called
/// [`MAX_QUERIES`] times at most, and not at all on a host of another family
/// than Windows.
pub fn discover_logs<R, V, P>(
    platform: Platform,
    read_registry: R,
    read_variable: V,
    path_exists: P,
) -> (outcome: Result<Vec<LogPath>, DiscoveryError>) where
    R: Fn(String, String) -> Result<String, RegistryReadError>,
    V: Fn(String) -> Option<String>,
    P: Fn(String) -> bool,

    requires
        forall|key: String, value: String| read_registry.requires((key, value)),
        forall|name: String| read_variable.requires((name,)),
        forall|path: String| path_exists.requires((path,)),
    ensures
        exists|transcript: Seq<Exchange>|
            #[trigger] conducted(platform, transcript, read_registry, read_variable, path_exists)
                && transcript.len() <= MAX_QUERIES && (platform != Platform::Windows
                ==> transcript.len() == 0) && replay(
                DiscoveryView::initial(platform),
                transcript,
            ).outcome() == Some(outcome_view(outcome)),
        outcome matches Ok(found) ==> found@.len() > 0 && of_one_strategy(log_views(found@)),
        platform != Platform::Windows ==> outcome_view(outcome) == OutcomeView::Err(
            DiscoveryError::PlatformUnsupported,
        ),
        forall|host: Host|
            host.platform == platform && #[trigger] speaks_for(
                host,
                read_registry,
                read_variable,
                path_exists,
            ) ==> outcome_view(outcome) == host.expected(),
{
    let mut engine = Discovery::new(platform);
    let ghost mut transcript: Seq<Exchange> = Seq::empty();
    loop
        invariant
            forall|key: String, value: String| read_registry.requires((key, value)),
            forall|name: String| read_variable.requires((name,)),
            forall|path: String| path_exists.requires((path,)),
            conducted(platform, transcript, read_registry, read_variable, path_exists),
            engine@ == replay(DiscoveryView::initial(platform), transcript),
            transcript.len() + engine@.queries_left() <= MAX_QUERIES,
            platform != Platform::Windows ==> transcript.len() == 0,
            platform != Platform::Windows ==> engine@ == DiscoveryView::initial(platform),
            forall|host: Host|
                host.platform == platform && #[trigger] speaks_for(
                    host,
                    read_registry,
                    read_variable,
                    path_exists,
                ) ==> host.run(DiscoveryView::initial(platform)) == host.run(engine@),
        ensures
            engine@.pending() is None,
        decreases engine@.queries_left(),
    {
        let request = match engine.request() {
            None => { break ; },
            Some(request) => request,
        };
        let ghost asked = request;
        let answer = match request {
            Request::ReadRegistry { key, value } => Answer::Registry(read_registry(key, value)),
            Request::ReadVariable { name } => Answer::Variable(read_variable(name)),
            Request::ProbePath { path } => Answer::Exists(path_exists(path)),
        };
        proof {
            let exchange = Exchange { request: asked, answer };
            let longer = transcript.push(exchange);
            assert(longer.drop_last() =~= transcript);
            assert forall|i: int| 0 <= i < longer.len() implies {
                &&& replay(DiscoveryView::initial(platform), longer.take(i)).pending() == Some(
                    (#[trigger] longer[i]).request@,
                )
                &&& given_by_host(longer[i], read_registry, read_variable, path_exists)
            } by {
                if i < transcript.len() {
                    assert(longer.take(i) =~= transcript.take(i));
                }
            }
            transcript = longer;
        }
        engine = engine.answer(answer);
    }
    proof {
        assert forall|host: Host|
            host.platform == platform && #[trigger] speaks_for(
                host,
                read_registry,
                read_variable,
                path_exists,
            ) implies Some(host.expected()) == engine@.outcome() by {
            host.engine_finds_what_the_host_holds();
        }
    }
    engine.into_outcome().unwrap()
}

/// What the user interface is told: the paths as plain strings, or the
/// sentence that explains the failure.
pub type ReplyView = Result<Seq<Seq<char>>, Seq<char>>;

/// A reply as a mathematical value.
pub open spec fn reply_view(reply: Result<Vec<String>, String>) -> ReplyView {
    match reply {
        Ok(paths) => Ok(paths@.map_values(|path: String| path@)),
        Err(message) => Err(message@),
    }
}

/// The reply that tells of `outcome`: the paths in their order, stripped of
/// their tags, or the sentence for the error.
pub open spec fn reply_to(outcome: OutcomeView) -> ReplyView {
    match outcome {
        Ok(found) => Ok(found.map_values(|log: LogPathView| log.path)),
        Err(error) => Err(error.text()),
    }
}

/// Puts an outcome of discovery into the form in which the user interface
/// takes it.
pub fn command_reply(outcome: Result<Vec<LogPath>, DiscoveryError>) -> (reply: Result<
    Vec<String>,
    String,
>)
    ensures
        reply_view(reply) == reply_to(outcome_view(outcome)),
        reply matches Ok(paths) ==> outcome matches Ok(found) && paths@.len() == found@.len(),
{
    match outcome {
        Ok(found) => {
            let mut paths: Vec<String> = Vec::new();
            let mut i: usize = 0;
            while i < found.len()
                invariant
                    i <= found.len(),
                    paths@.len() == i,
                    forall|j: int| 0 <= j < i ==> paths@[j]@ == found@[j].path@,
                decreases found.len() - i,
            {
                paths.push(found[i].path.clone());
                i += 1;
            }
            assert(paths@.map_values(|path: String| path@) =~= log_views(found@).map_values(
                |log: LogPathView| log.path,
            ));
            Ok(paths)
        },
        Err(error) => Err(error.message()),
    }
}

/// Searches the host for the game client's logs and reports to the user
/// interface: [`discover_logs`], then [`command_reply`].
pub fn find_star_citizen_logs<R, V, P>(
    platform: Platform,
    read_registry: R,
    read_variable: V,
    path_exists: P,
) -> (reply: Result<Vec<String>, String>) where
    R: Fn(String, String) -> Result<String, RegistryReadError>,
    V: Fn(String) -> Option<String>,
    P: Fn(String) -> bool,

    requires
        forall|key: String, value: String| read_registry.requires((key, value)),
        forall|name: String| read_variable.requires((name,)),
        forall|path: String| path_exists.requires((path,)),
    ensures
        exists|transcript: Seq<Exchange>|
            #[trigger] conducted(platform, transcript, read_registry, read_variable, path_exists)
                && transcript.len() <= MAX_QUERIES && (platform != Platform::Windows
                ==> transcript.len() == 0) && (replay(
                DiscoveryView::initial(platform),
                transcript,
            ).outcome() matches Some(outcome) && reply_view(reply) == reply_to(outcome)),
        reply matches Ok(paths) ==> paths@.len() > 0,
        platform != Platform::Windows ==> reply_view(reply) == ReplyView::Err(
            DiscoveryError::PlatformUnsupported.text(),
        ),
        forall|host: Host|
            host.platform == platform && #[trigger] speaks_for(
                host,
                read_registry,
                read_variable,
                path_exists,
            ) ==> reply_view(reply) == reply_to(host.expected()),
{
    command_reply(discover_logs(platform, read_registry, read_variable, path_exists))
}

} // verus!
