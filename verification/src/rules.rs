//! Web-hook rules: which HTTP requests one event body gives rise to.

use crate::assoc::put;
use crate::json::{Json, JsonModel};
use crate::topic::{any_matches, any_matches_spec};
use crate::types::HookType;
use vstd::prelude::*;

verus! {

/// One web-hook rule: the action it reports, the topics it is limited to (all
/// topics where there are none) and where it posts (the global URLs where
/// there are none).
#[derive(Clone, Debug, PartialEq, Eq)]
pub struct Rule {
    pub action: String,
    pub topics: Option<Vec<String>>,
    pub urls: Vec<String>,
}

/// The web-hook's configuration. Each rule stands with the kind of event it
/// is for; the rules of one kind apply in the order in which they stand.
#[derive(Clone, Debug, PartialEq, Eq)]
pub struct PluginConfig {
    pub worker_threads: usize,
    pub async_queue_capacity: usize,
    pub http_timeout_ms: u64,
    pub http_urls: Vec<String>,
    pub rules: Vec<(HookType, Rule)>,
}

/// One HTTP POST to make: where, with which JSON body, and how long to wait.
#[derive(Debug, PartialEq, Eq)]
pub struct HttpRequest {
    pub url: String,
    pub body: Json,
    pub timeout_ms: u64,
}

/// The mathematical model of a request.
pub struct RequestModel {
    pub url: Seq<char>,
    pub body: JsonModel,
    pub timeout_ms: int,
}

impl View for HttpRequest {
    type V = RequestModel;

    open spec fn view(&self) -> RequestModel {
        RequestModel { url: self.url@, body: self.body@, timeout_ms: self.timeout_ms as int }
    }
}

/// The models of a list of requests.
pub open spec fn requests_model(requests: Seq<HttpRequest>) -> Seq<RequestModel> {
    Seq::new(requests.len(), |i: int| requests[i]@)
}

/// A rule without topics allows every event, and every rule allows an event
/// without a topic; else one of the rule's filters must match the topic.
pub open spec fn rule_allows(rule: Rule, topic: Option<Seq<char>>) -> bool {
    match (topic, rule.topics) {
        (Some(t), Some(filters)) => any_matches_spec(filters@, t),
        _ => true,
    }
}

/// Where a rule posts: its own URLs, or the global ones where it has none.
pub open spec fn selected_urls(rule: Rule, defaults: Seq<String>) -> Seq<String> {
    if rule.urls@.len() == 0 {
        defaults
    } else {
        rule.urls@
    }
}

/// The body with the rule's action written at its top level. A body that is
/// no object is sent as it is.
pub open spec fn annotated(body: JsonModel, action: Seq<char>) -> JsonModel {
    match body {
        JsonModel::Object(members) => JsonModel::Object(
            put(members, "action"@, JsonModel::Str(action)),
        ),
        other => other,
    }
}

/// The requests of one rule: none where the rule does not allow the event,
/// else one per selected URL, in their order, each with the annotated body.
pub open spec fn rule_requests(
    rule: Rule,
    defaults: Seq<String>,
    timeout_ms: int,
    topic: Option<Seq<char>>,
    body: JsonModel,
) -> Seq<RequestModel> {
    if rule_allows(rule, topic) {
        let urls = selected_urls(rule, defaults);
        Seq::new(
            urls.len(),
            |i: int|
                RequestModel {
                    url: urls[i]@,
                    body: annotated(body, rule.action@),
                    timeout_ms: timeout_ms,
                },
        )
    } else {
        Seq::empty()
    }
}

/// The requests of the rules for events of the kind `typ`, rule after rule.
pub open spec fn plan_spec(
    rules: Seq<(HookType, Rule)>,
    defaults: Seq<String>,
    timeout_ms: int,
    typ: HookType,
    topic: Option<Seq<char>>,
    body: JsonModel,
) -> Seq<RequestModel>
    decreases rules.len(),
{
    if rules.len() == 0 {
        Seq::empty()
    } else {
        let before = plan_spec(rules.drop_last(), defaults, timeout_ms, typ, topic, body);
        if rules.last().0 == typ {
            before + rule_requests(rules.last().1, defaults, timeout_ms, topic, body)
        } else {
            before
        }
    }
}

/// The view of an optional topic.
pub open spec fn topic_model(topic: Option<String>) -> Option<Seq<char>> {
    match topic {
        Some(t) => Some(t@),
        None => None,
    }
}

impl Rule {
    /// Whether this rule allows an event about `topic`.
    pub fn allows(&self, topic: &Option<String>) -> (r: bool)
        ensures
            r == rule_allows(*self, topic_model(*topic)),
    {
        match topic {
            Some(t) => match &self.topics {
                Some(filters) => any_matches(filters, t.as_str()),
                None => true,
            },
            None => true,
        }
    }
}

/// The body with `action` written at its top level.
pub fn annotate(body: &Json, action: &String) -> (r: Json)
    ensures
        r@ == annotated(body@, action@),
{
    body.duplicate().with_member("action", Json::Str(action.clone()))
}

/// The model of a list with one more request is the model of the list with
/// one more model.
proof fn lemma_model_push(requests: Seq<HttpRequest>, request: HttpRequest)
    ensures
        requests_model(requests.push(request)) == requests_model(requests) + seq![request@],
{
    assert(requests_model(requests.push(request)) =~= requests_model(requests) + seq![request@]);
}

/// Adds to `requests` those of one rule that allows the event.
fn push_rule_requests(
    requests: &mut Vec<HttpRequest>,
    rule: &Rule,
    defaults: &Vec<String>,
    timeout_ms: u64,
    body: &Json,
)
    ensures
        requests_model(final(requests)@) == requests_model(old(requests)@) + Seq::new(
            selected_urls(*rule, defaults@).len(),
            |i: int|
                RequestModel {
                    url: selected_urls(*rule, defaults@)[i]@,
                    body: annotated(body@, rule.action@),
                    timeout_ms: timeout_ms as int,
                },
        ),
{
    let urls = if rule.urls.len() == 0 {
        defaults
    } else {
        &rule.urls
    };
    let ghost before = requests_model(requests@);
    let ghost wanted = Seq::new(
        urls@.len(),
        |i: int|
            RequestModel {
                url: urls@[i]@,
                body: annotated(body@, rule.action@),
                timeout_ms: timeout_ms as int,
            },
    );
    if urls.len() == 0 {
        assert(requests_model(requests@) =~= before + wanted);
        return ;
    }
    let new_body = annotate(body, &rule.action);
    let last = urls.len() - 1;
    let mut i: usize = 0;
    while i < last
        invariant
            i <= last,
            last == urls.len() - 1,
            new_body@ == annotated(body@, rule.action@),
            wanted == Seq::new(
                urls@.len(),
                |i: int|
                    RequestModel {
                        url: urls@[i]@,
                        body: annotated(body@, rule.action@),
                        timeout_ms: timeout_ms as int,
                    },
            ),
            requests_model(requests@) == before + wanted.take(i as int),
        decreases last - i,
    {
        let ghost prev = requests@;
        requests.push(
            HttpRequest { url: urls[i].clone(), body: new_body.duplicate(), timeout_ms },
        );
        proof {
            lemma_model_push(prev, requests@[prev.len() as int]);
            assert(before + wanted.take(i as int) + seq![wanted[i as int]] =~= before
                + wanted.take(i + 1));
        }
        i += 1;
    }
    let ghost prev = requests@;
    requests.push(HttpRequest { url: urls[last].clone(), body: new_body, timeout_ms });
    proof {
        lemma_model_push(prev, requests@[prev.len() as int]);
        assert(before + wanted.take(last as int) + seq![wanted[last as int]] =~= before + wanted);
    }
}

/// The HTTP requests for one body of an event of the kind `typ` about
/// `topic`: for each rule of that kind that allows the topic, one request per
/// selected URL, carrying the body with the rule's action and the configured
/// timeout. A rule whose URLs and the global URLs are both empty gives none.
pub fn plan_requests(cfg: &PluginConfig, typ: HookType, topic: &Option<String>, body: &Json) -> (r:
    Vec<HttpRequest>)
    ensures
        requests_model(r@) == plan_spec(
            cfg.rules@,
            cfg.http_urls@,
            cfg.http_timeout_ms as int,
            typ,
            topic_model(*topic),
            body@,
        ),
{
    let mut requests: Vec<HttpRequest> = Vec::new();
    let ghost t = topic_model(*topic);
    let ghost timeout = cfg.http_timeout_ms as int;
    assert(requests_model(requests@) =~= Seq::empty());
    let mut i: usize = 0;
    while i < cfg.rules.len()
        invariant
            i <= cfg.rules.len(),
            t == topic_model(*topic),
            timeout == cfg.http_timeout_ms as int,
            requests_model(requests@) == plan_spec(
                cfg.rules@.take(i as int),
                cfg.http_urls@,
                timeout,
                typ,
                t,
                body@,
            ),
        decreases cfg.rules.len() - i,
    {
        assert(cfg.rules@.take(i + 1).drop_last() =~= cfg.rules@.take(i as int));
        if cfg.rules[i].0 == typ && cfg.rules[i].1.allows(topic) {
            push_rule_requests(
                &mut requests,
                &cfg.rules[i].1,
                &cfg.http_urls,
                cfg.http_timeout_ms,
                body,
            );
        } else {
            assert(cfg.rules@[i as int].0 == typ ==> rule_requests(
                cfg.rules@[i as int].1,
                cfg.http_urls@,
                timeout,
                t,
                body@,
            ) =~= Seq::empty());
            assert(requests_model(requests@) + Seq::<RequestModel>::empty() =~= requests_model(
                requests@,
            ));
        }
        i += 1;
    }
    assert(cfg.rules@.take(i as int) =~= cfg.rules@);
    requests
}

} // verus!
