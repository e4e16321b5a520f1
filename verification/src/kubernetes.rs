//! Choosing the cluster namespace the secret-backed store reads from.
//!
//! The surrounding process gathers three candidate sources — the
//! kubeconfig's current context, the downward-API environment variable,
//! and the downward-API file — and this module makes the choice between
//! them, in that order of preference.

use vstd::prelude::*;
use vstd::string::StringExecFns;

verus! {

/// One context of a kubeconfig: its name and its namespace, if set.
#[derive(Debug, PartialEq, Eq)]
pub struct KubeContext {
    pub name: String,
    pub namespace: Option<String>,
}

pub struct KubeContextView {
    pub name: Seq<char>,
    pub namespace: Option<Seq<char>>,
}

impl View for KubeContext {
    type V = KubeContextView;

    open spec fn view(&self) -> KubeContextView {
        KubeContextView {
            name: self.name@,
            namespace: match self.namespace {
                Some(ref ns) => Some(ns@),
                None => None,
            },
        }
    }
}

pub open spec fn contexts_view(cs: Seq<KubeContext>) -> Seq<KubeContextView> {
    cs.map_values(|c: KubeContext| c@)
}

/// The first context with the given name.
pub open spec fn find_context(cs: Seq<KubeContextView>, name: Seq<char>) -> Option<KubeContextView>
    decreases cs.len(),
{
    if cs.len() == 0 {
        None
    } else if cs.first().name == name {
        Some(cs.first())
    } else {
        find_context(cs.drop_first(), name)
    }
}

/// The namespace named by a kubeconfig: the nonempty namespace of the
/// context selected as current, if there is one.
/// The view of an optional string.
pub open spec fn opt_str_view(o: Option<String>) -> Option<Seq<char>> {
    match o {
        Some(n) => Some(n@),
        None => None,
    }
}

pub open spec fn kubeconfig_namespace_spec(
    cs: Seq<KubeContextView>,
    current_context: Option<Seq<char>>,
) -> Option<Seq<char>> {
    let name = match current_context {
        Some(n) => n,
        None => Seq::empty(),
    };
    match find_context(cs, name) {
        None => None,
        Some(c) => match c.namespace {
            Some(ns) => if ns.len() > 0 {
                Some(ns)
            } else {
                None
            },
            None => None,
        },
    }
}

/// Extract the current context's nonempty namespace from kubeconfig data.
/// A kubeconfig without a matching context yields nothing.
pub fn kubeconfig_namespace(contexts: &Vec<KubeContext>, current_context: &Option<String>) -> (r:
    Option<String>)
    ensures
        r is Some <==> kubeconfig_namespace_spec(
            contexts_view(contexts@),
            opt_str_view(*current_context),
        ) is Some,
        r is Some ==> Some((r->0)@) == kubeconfig_namespace_spec(
            contexts_view(contexts@),
            opt_str_view(*current_context),
        ),
{
    let ghost cv = contexts_view(contexts@);
    let ghost cc = opt_str_view(*current_context);
    let name: String = match current_context {
        Some(n) => n.clone(),
        None => String::new(),
    };
    let ghost target = name@;
    proof {
        assert(target == (match cc {
            Some(n) => n,
            None => Seq::<char>::empty(),
        }));
    }
    let mut i: usize = 0;
    proof {
        assert(cv.skip(0) =~= cv);
    }
    while i < contexts.len()
        invariant
            i <= contexts@.len(),
            cv == contexts_view(contexts@),
            cc == opt_str_view(*current_context),
            target == name@,
            target == (match cc {
                Some(n) => n,
                None => Seq::<char>::empty(),
            }),
            find_context(cv, target) == find_context(cv.skip(i as int), target),
        decreases contexts@.len() - i,
    {
        proof {
            assert(cv.skip(i as int).first() == cv[i as int]);
            assert(cv.skip(i as int).drop_first() =~= cv.skip(i + 1));
            assert(cv[i as int] == contexts@[i as int]@);
        }
        let context = &contexts[i];
        if context.name == name {
            proof {
                assert(find_context(cv.skip(i as int), target) == Some(cv[i as int]));
                assert(cv[i as int].namespace == (match context.namespace {
                    Some(ref ns) => Some(ns@),
                    None => None,
                }));
            }
            match &context.namespace {
                Some(ns) => {
                    if ns.as_str().is_empty() {
                        return None;
                    } else {
                        return Some(ns.clone());
                    }
                },
                None => {
                    return None;
                },
            }
        }
        i += 1;
    }
    proof {
        assert(cv.skip(cv.len() as int) =~= Seq::<KubeContextView>::empty());
    }
    None
}

/// The namespace selected from the three candidate sources: the
/// kubeconfig's answer first, then the downward-API environment variable,
/// then the downward-API file's trimmed content, and `default` where none
/// is available.
pub open spec fn selected_namespace(
    kube_ns: Option<Seq<char>>,
    env_ns: Option<Seq<char>>,
    file_ns: Option<Seq<char>>,
) -> Seq<char> {
    match kube_ns {
        Some(ns) => ns,
        None => match env_ns {
            Some(ns) => ns,
            None => match file_ns {
                Some(ns) => ns,
                None => "default"@,
            },
        },
    }
}

/// Choose the namespace to operate in from the three candidate sources.
pub fn select_namespace(
    kube_ns: Option<String>,
    env_ns: Option<String>,
    file_ns: Option<String>,
) -> (r: String)
    ensures
        r@ == selected_namespace(
            match kube_ns {
                Some(ref ns) => Some(ns@),
                None => None,
            },
            match env_ns {
                Some(ref ns) => Some(ns@),
                None => None,
            },
            match file_ns {
                Some(ref ns) => Some(ns@),
                None => None,
            },
        ),
{
    match kube_ns {
        Some(ns) => ns,
        None => match env_ns {
            Some(ns) => ns,
            None => match file_ns {
                Some(ns) => ns,
                None => String::from_str("default"),
            },
        },
    }
}

} // verus!
