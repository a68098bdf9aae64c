//! Decisions made in-process, without the decision service.

use crate::ordered::{has_key, lookup, StringMap};
use crate::switchyard::config::{answers, RoutingMode, TargetBinding, Targets, WireProtocol};
use crate::text::{debug_text, quoted, texts};
use vstd::prelude::*;
use vstd::string::*;

verus! {

/// Which decision backend the plugin uses.
#[derive(Clone, Copy, Debug, PartialEq, Eq, Structural)]
pub enum DecisionBackend {
    /// Call the HTTP Decision API (requires a running server).
    Http,
    /// Make decisions in-process.
    Libsy,
}

impl Default for DecisionBackend {
    fn default() -> (r: Self)
        ensures
            r == DecisionBackend::Http,
    {
        DecisionBackend::Http
    }
}

impl DecisionBackend {
    /// Stable string form of the backend, used in events.
    pub fn label(self) -> (r: &'static str)
        ensures
            match self {
                DecisionBackend::Http => r@ == "http"@,
                DecisionBackend::Libsy => r@ == "libsy"@,
            },
    {
        match self {
            DecisionBackend::Http => "http",
            DecisionBackend::Libsy => "libsy",
        }
    }
}

/// The algorithm that decides.
#[derive(Clone, Copy, Debug, PartialEq, Eq, Structural)]
pub enum LibsyAlgorithmKind {
    /// Classify each request with a classifier model, then route strong or weak.
    LlmClassifier,
    /// Route uniformly at random among all configured targets.
    Random,
}

impl Default for LibsyAlgorithmKind {
    fn default() -> (r: Self)
        ensures
            r == LibsyAlgorithmKind::LlmClassifier,
    {
        LibsyAlgorithmKind::LlmClassifier
    }
}

/// Configuration of the in-process decision backend. Target fields name entries of the plugin's targets.
#[derive(Clone, Debug)]
pub struct LibsyBackendConfig {
    /// The algorithm to run.
    pub algorithm: LibsyAlgorithmKind,
    /// Target that scores each request (classifier only).
    pub classifier_target: String,
    /// Target routed to at or above the threshold (classifier only).
    pub strong_target: String,
    /// Target routed to below the threshold (classifier only).
    pub weak_target: String,
    /// Classifier score at or above which the strong target is chosen, as the bits of a double.
    pub threshold_bits: u64,
}

/// The bits of the default threshold, one half.
pub fn default_threshold_bits() -> (r: u64)
    ensures
        r == 0x3fe0_0000_0000_0000u64,
{
    0x3fe0_0000_0000_0000u64
}

/// The bits of a double from zero to one: those up to the bits of one, and negative zero.
pub open spec fn in_unit_interval(bits: u64) -> bool {
    bits <= 0x3ff0_0000_0000_0000u64 || bits == 0x8000_0000_0000_0000u64
}

/// The targets that the algorithm can route to.
pub open spec fn routable(config: LibsyBackendConfig, targets: Targets) -> Seq<Seq<char>> {
    match config.algorithm {
        LibsyAlgorithmKind::LlmClassifier => seq![
            config.classifier_target@,
            config.strong_target@,
            config.weak_target@,
        ],
        LibsyAlgorithmKind::Random => Seq::new(targets.len(), |i: int| targets[i].0),
    }
}

/// What is wrong with a target that the classifier needs.
pub open spec fn classifier_error(field: Seq<char>, id: Seq<char>, targets: Targets) -> Option<Seq<char>> {
    if id.len() == 0 {
        Some("libsy llm_classifier requires "@ + field)
    } else if !has_key(targets, id) {
        Some("libsy "@ + field + " "@ + debug_text(id) + " has no target binding"@)
    } else {
        None
    }
}

/// What is wrong with a configuration of the in-process backend.
pub open spec fn libsy_error(config: LibsyBackendConfig, targets: Targets) -> Option<Seq<char>> {
    match config.algorithm {
        LibsyAlgorithmKind::LlmClassifier => match classifier_error(
            "classifier_target"@,
            config.classifier_target@,
            targets,
        ) {
            Some(error) => Some(error),
            None => match classifier_error("strong_target"@, config.strong_target@, targets) {
                Some(error) => Some(error),
                None => match classifier_error("weak_target"@, config.weak_target@, targets) {
                    Some(error) => Some(error),
                    None => if in_unit_interval(config.threshold_bits) {
                        None
                    } else {
                        Some("libsy threshold must be within [0, 1]"@)
                    },
                },
            },
        },
        LibsyAlgorithmKind::Random => if targets.len() == 0 {
            Some("libsy random requires at least one target binding"@)
        } else {
            None
        },
    }
}

fn validate_classifier_target(field: &str, id: &str, targets: &StringMap<TargetBinding>) -> (r: Result<(), String>)
    ensures
        answers(r, classifier_error(field@, id@, targets.view())),
{
    if id.is_empty() {
        return Err("libsy llm_classifier requires ".to_owned().concat(field));
    }
    if !targets.contains_key(id) {
        return Err(
            "libsy ".to_owned().concat(field).concat(" ").concat(quoted(id).as_str()).concat(" has no target binding"),
        );
    }
    Ok(())
}

/// Validates a configuration of the in-process backend against the plugin's targets.
pub fn validate_libsy_config(config: &LibsyBackendConfig, targets: &StringMap<TargetBinding>) -> (r: Result<
    (),
    String,
>)
    ensures
        answers(r, libsy_error(*config, targets.view())),
{
    match config.algorithm {
        LibsyAlgorithmKind::LlmClassifier => {
            if let Err(error) = validate_classifier_target(
                "classifier_target",
                config.classifier_target.as_str(),
                targets,
            ) {
                return Err(error);
            }
            if let Err(error) = validate_classifier_target("strong_target", config.strong_target.as_str(), targets) {
                return Err(error);
            }
            if let Err(error) = validate_classifier_target("weak_target", config.weak_target.as_str(), targets) {
                return Err(error);
            }
            if config.threshold_bits > 0x3ff0_0000_0000_0000u64 && config.threshold_bits != 0x8000_0000_0000_0000u64 {
                return Err("libsy threshold must be within [0, 1]".to_owned());
            }
        },
        LibsyAlgorithmKind::Random => {
            if targets.is_empty() {
                return Err("libsy random requires at least one target binding".to_owned());
            }
        },
    }
    Ok(())
}

impl LibsyBackendConfig {
    /// The targets that the algorithm can route to.
    pub fn routable_target_ids(&self, targets: &StringMap<TargetBinding>) -> (r: Vec<String>)
        ensures
            texts(r@) == routable(*self, targets.view()),
    {
        match self.algorithm {
            LibsyAlgorithmKind::LlmClassifier => {
                let ids: Vec<String> = vec![
                    self.classifier_target.clone(),
                    self.strong_target.clone(),
                    self.weak_target.clone(),
                ];
                assert(texts(ids@) =~= routable(*self, targets.view()));
                ids
            },
            LibsyAlgorithmKind::Random => {
                let mut ids: Vec<String> = Vec::new();
                let mut i: usize = 0;
                while i < targets.len()
                    invariant
                        i <= targets.view().len(),
                        ids.len() == i,
                        forall|j: int| 0 <= j < i ==> (#[trigger] ids@[j])@ == targets.view()[j].0,
                    decreases targets.view().len() - i,
                {
                    ids.push(targets.key_at(i).to_owned());
                    i += 1;
                }
                assert(texts(ids@) =~= routable(*self, targets.view()));
                ids
            },
        }
    }
}

/// Whether every target that the algorithm can route to is bound and speaks this protocol.
pub open spec fn all_speak(config: LibsyBackendConfig, targets: Targets, protocol: WireProtocol) -> bool {
    forall|i: int|
        0 <= i < routable(config, targets).len() ==> match lookup(targets, #[trigger] routable(config, targets)[i]) {
            Some(target) => target.protocol == protocol,
            None => false,
        }
}

/// Whether the in-process backend routes a call: it does in enforce mode, a streamed call only where every
/// target that it can route to speaks the call's protocol. Other calls go to the trusted fallback.
pub fn libsy_routes(
    mode: RoutingMode,
    config: &LibsyBackendConfig,
    targets: &StringMap<TargetBinding>,
    inbound: WireProtocol,
    streaming: bool,
) -> (r: bool)
    ensures
        r == (mode == RoutingMode::Enforce && (streaming ==> all_speak(*config, targets.view(), inbound))),
{
    if mode != RoutingMode::Enforce {
        return false;
    }
    if !streaming {
        return true;
    }
    let ids = config.routable_target_ids(targets);
    let ghost list = routable(*config, targets.view());
    let mut i: usize = 0;
    while i < ids.len()
        invariant
            i <= ids.len(),
            streaming,
            mode == RoutingMode::Enforce,
            list == routable(*config, targets.view()),
            texts(ids@) == list,
            forall|j: int|
                0 <= j < i ==> match lookup(targets.view(), #[trigger] list[j]) {
                    Some(target) => target.protocol == inbound,
                    None => false,
                },
        decreases ids.len() - i,
    {
        assert(list[i as int] == ids@[i as int]@);
        match targets.get(ids[i].as_str()) {
            Some(target) => {
                if target.protocol != inbound {
                    return false;
                }
            },
            None => {
                return false;
            },
        }
        i += 1;
    }
    true
}

} // verus!
