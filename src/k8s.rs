use vstd::prelude::*;
use vstd::string::*;

use crate::command::{trim, trimmed};
use crate::data::{
    object_lookup, CollectedData, CollectionError, CollectionMethod, CollectionMethodType,
    CtnContract, ExecutableObject, MethodInput, ObjectField,
};
use crate::filesystem::{bool_field, int_field};
use crate::values::ResolvedValue;
use crate::text::{chars_of, contains_exec, has_prefix, has_substring, lower_of, starts_with_exec, str_eq, to_lowercase};

verus! {

/// Lower-case kinds of resources that live outside any namespace.
pub open spec fn cluster_scoped_lower(kind: Seq<char>) -> bool {
    kind == "namespace"@ || kind == "node"@ || kind == "persistentvolume"@ || kind
        == "clusterrole"@ || kind == "clusterrolebinding"@
}

/// Whether an already lower-cased kind is cluster-scoped.
pub fn is_cluster_scoped_lower(kind: &str) -> (r: bool)
    ensures
        r == cluster_scoped_lower(kind@),
{
    str_eq(kind, "namespace") || str_eq(kind, "node") || str_eq(kind, "persistentvolume")
        || str_eq(kind, "clusterrole") || str_eq(kind, "clusterrolebinding")
}

/// Whether a resource kind, in any case, is cluster-scoped.
pub fn is_cluster_scoped(kind: &str) -> (r: bool)
    ensures
        r == cluster_scoped_lower(lower_of(kind@)),
{
    let lower = to_lowercase(kind);
    is_cluster_scoped_lower(lower.as_str())
}

/// How kubectl reaches the cluster.
#[derive(Debug, Clone)]
pub enum KubeAuth {
    /// Inside a cluster: the API server's host and port, the service-account token if it
    /// could be read, and the CA bundle path if it exists.
    InCluster { host: String, port: String, token: Option<String>, ca_path: Option<String> },
    /// Outside a cluster, with a kubeconfig file.
    Kubeconfig(String),
    /// Whatever kubectl finds on its own.
    Ambient,
}

pub open spec fn opt_view(o: Option<&str>) -> Option<Seq<char>> {
    match o {
        Some(s) => Some(s@),
        None => None,
    }
}

pub open spec fn auth_args(auth: KubeAuth) -> Seq<Seq<char>> {
    match auth {
        KubeAuth::InCluster { host, port, token, ca_path } => seq![
            "--server"@,
            "https://"@ + host@ + ":"@ + port@,
        ] + match token {
            Some(t) => seq!["--token"@, trimmed(t@)],
            None => Seq::empty(),
        } + match ca_path {
            Some(c) => seq!["--certificate-authority"@, c@],
            None => Seq::empty(),
        },
        KubeAuth::Kubeconfig(k) => seq!["--kubeconfig"@, k@],
        KubeAuth::Ambient => Seq::empty(),
    }
}

/// Arguments of the kubectl query for a kind, namespace, exact name and label selector.
pub open spec fn kubectl_args_spec(
    auth: KubeAuth,
    kind: Seq<char>,
    namespace: Option<Seq<char>>,
    name: Option<Seq<char>>,
    selector: Option<Seq<char>>,
) -> Seq<Seq<char>> {
    auth_args(auth) + query_args(kind, namespace, name, selector)
}

pub open spec fn args_view(v: Seq<String>) -> Seq<Seq<char>> {
    v.map_values(|s: String| s@)
}

fn push_arg(args: &mut Vec<String>, a: String)
    ensures
        args_view(final(args)@) == args_view(old(args)@).push(a@),
{
    args.push(a);
    assert(args_view(args@) =~= args_view(old(args)@).push(a@));
}

/// Collector of Kubernetes resources through kubectl.
pub struct K8sResourceCollector {
    pub id: String,
}

pub open spec fn k8s_ctn_type() -> Seq<char> {
    "k8s_resource"@
}

impl K8sResourceCollector {
    pub fn new(id: &str) -> (r: Self)
        ensures
            r.id@ == id@,
    {
        K8sResourceCollector { id: String::from_str(id) }
    }

    pub fn collector_id(&self) -> (r: &str)
        ensures
            r@ == self.id@,
    {
        self.id.as_str()
    }

    pub fn supported_ctn_types(&self) -> (r: Vec<String>)
        ensures
            r@.len() == 1,
            r@[0]@ == k8s_ctn_type(),
    {
        let mut v: Vec<String> = Vec::new();
        v.push(String::from_str("k8s_resource"));
        v
    }

    /// Refuses a contract of another criterion type.
    pub fn validate_ctn_compatibility(&self, contract: &CtnContract) -> (r: Result<(), CollectionError>)
        ensures
            r is Ok <==> contract.ctn_type@ == k8s_ctn_type(),
            r matches Err(e) ==> e is CtnContractValidation,
    {
        if !str_eq(contract.ctn_type.as_str(), "k8s_resource") {
            let mut reason = String::from_str("Incompatible CTN type: expected 'k8s_resource', got '");
            reason.append(contract.ctn_type.as_str());
            reason.append("'");
            return Err(CollectionError::CtnContractValidation { reason });
        }
        Ok(())
    }

    /// The kubectl arguments that query a kind, optionally within a namespace, by exact
    /// name and by label selector, as JSON. Cluster-scoped kinds are not asked for across
    /// namespaces.
    pub fn build_kubectl_args(
        &self,
        kind: &str,
        namespace: Option<&str>,
        name: Option<&str>,
        label_selector: Option<&str>,
        auth: &KubeAuth,
    ) -> (r: Vec<String>)
        ensures
            args_view(r@) == kubectl_args_spec(
                *auth,
                kind@,
                opt_view(namespace),
                opt_view(name),
                opt_view(label_selector),
            ),
    {
        let mut args = auth_arg_list(auth);
        let mut rest = query_arg_list(kind, namespace, name, label_selector);
        append_args(&mut args, &mut rest);
        assert(args_view(args@) =~= kubectl_args_spec(
            *auth,
            kind@,
            opt_view(namespace),
            opt_view(name),
            opt_view(label_selector),
        ));
        args
    }
}

fn append_args(a: &mut Vec<String>, b: &mut Vec<String>)
    ensures
        args_view(final(a)@) == args_view(old(a)@) + args_view(old(b)@),
{
    let ghost b0 = old(b)@;
    a.append(b);
    assert(args_view(a@) =~= args_view(old(a)@) + args_view(b0));
}

fn auth_arg_list(auth: &KubeAuth) -> (r: Vec<String>)
    ensures
        args_view(r@) == auth_args(*auth),
{
    let mut args: Vec<String> = Vec::new();
    match auth {
        KubeAuth::InCluster { host, port, token, ca_path } => {
            push_arg(&mut args, String::from_str("--server"));
            let mut url = String::from_str("https://");
            url.append(host.as_str());
            url.append(":");
            url.append(port.as_str());
            push_arg(&mut args, url);
                match token {
                Some(t) => {
                    push_arg(&mut args, String::from_str("--token"));
                    push_arg(&mut args, trim(t.as_str()));
                },
                None => {},
            }
            match ca_path {
                Some(c) => {
                    push_arg(&mut args, String::from_str("--certificate-authority"));
                    push_arg(&mut args, c.clone());
                },
                None => {},
            }
        },
        KubeAuth::Kubeconfig(k) => {
            push_arg(&mut args, String::from_str("--kubeconfig"));
            push_arg(&mut args, k.clone());
        },
        KubeAuth::Ambient => {},
    }
    assert(args_view(args@) =~= auth_args(*auth));
    args
}

pub open spec fn query_args(
    kind: Seq<char>,
    namespace: Option<Seq<char>>,
    name: Option<Seq<char>>,
    selector: Option<Seq<char>>,
) -> Seq<Seq<char>> {
    seq!["get"@, lower_of(kind)] + match namespace {
        Some(ns) => seq!["-n"@, ns],
        None => if cluster_scoped_lower(lower_of(kind)) {
            Seq::empty()
        } else {
            seq!["--all-namespaces"@]
        },
    } + match name {
        Some(n) => seq![n],
        None => Seq::empty(),
    } + match selector {
        Some(l) => seq!["-l"@, l],
        None => Seq::empty(),
    } + seq!["-o"@, "json"@]
}

fn query_arg_list(
    kind: &str,
    namespace: Option<&str>,
    name: Option<&str>,
    label_selector: Option<&str>,
) -> (r: Vec<String>)
    ensures
        args_view(r@) == query_args(kind@, opt_view(namespace), opt_view(name), opt_view(label_selector)),
{
    let mut args: Vec<String> = Vec::new();
    push_arg(&mut args, String::from_str("get"));
    let lower = to_lowercase(kind);
    let scoped = is_cluster_scoped_lower(lower.as_str());
    push_arg(&mut args, lower);
    match namespace {
        Some(ns) => {
            push_arg(&mut args, String::from_str("-n"));
            push_arg(&mut args, String::from_str(ns));
        },
        None => {
            if !scoped {
                push_arg(&mut args, String::from_str("--all-namespaces"));
            }
        },
    }
    match name {
        Some(n) => {
            push_arg(&mut args, String::from_str(n));
        },
        None => {},
    }
    match label_selector {
        Some(l) => {
            push_arg(&mut args, String::from_str("-l"));
            push_arg(&mut args, String::from_str(l));
        },
        None => {},
    }
    push_arg(&mut args, String::from_str("-o"));
    push_arg(&mut args, String::from_str("json"));
    assert(args_view(args@) =~= query_args(
        kind@,
        opt_view(namespace),
        opt_view(name),
        opt_view(label_selector),
    ));
    args
}

/// Index of the first item whose name starts with `prefix`; items without a name are
/// passed over.
pub open spec fn first_with_prefix(names: Seq<Option<Seq<char>>>, prefix: Seq<char>) -> Option<int>
    decreases names.len(),
{
    if names.len() == 0 {
        None
    } else if names[0] matches Some(n) && has_prefix(n, prefix) {
        Some(0)
    } else {
        match first_with_prefix(names.drop_first(), prefix) {
            Some(i) => Some(i + 1),
            None => None,
        }
    }
}

pub open spec fn names_view(v: Seq<Option<String>>) -> Seq<Option<Seq<char>>> {
    v.map_values(|o: Option<String>| match o {
        Some(s) => Some(s@),
        None => None,
    })
}

/// Picks, in response order, the first resource whose name starts with `prefix`.
pub fn filter_by_name_prefix(names: &Vec<Option<String>>, prefix: &str) -> (r: Option<usize>)
    ensures
        r matches Some(i) ==> first_with_prefix(names_view(names@), prefix@) == Some(i as int),
        r is None ==> first_with_prefix(names_view(names@), prefix@) is None,
{
    let ghost nv = names_view(names@);
    let p = chars_of(prefix);
    let mut i: usize = 0;
    assert(nv.skip(0) =~= nv);
    while i < names.len()
        invariant
            i <= names.len(),
            nv == names_view(names@),
            p@ == prefix@,
            first_with_prefix(nv, prefix@) == match first_with_prefix(nv.skip(i as int), prefix@) {
                Some(k) => Some(k + i),
                None => None,
            },
        decreases names.len() - i,
    {
        let ghost rest = nv.skip(i as int);
        assert(rest.drop_first() =~= nv.skip(i + 1));
        assert(rest[0] == nv[i as int]);
        match &names[i] {
            Some(n) => {
                if starts_with_exec(&chars_of(n.as_str()), &p) {
                    return Some(i);
                }
            },
            None => {},
        }
        i = i + 1;
    }
    None
}

/// Whether a failed kubectl run only reported that nothing matched.
pub fn is_not_found_error(stderr: &str) -> (r: bool)
    ensures
        r == (has_substring(stderr@, "not found"@) || has_substring(stderr@, "No resources found"@)),
{
    let s = chars_of(stderr);
    contains_exec(&s, &chars_of("not found")) || contains_exec(&s, &chars_of("No resources found"))
}

/// An optional string field of an object: absent, a string, or (`Err`) another type.
pub open spec fn optional_string(fields: Seq<ObjectField>, name: Seq<char>) -> Result<Option<Seq<char>>, ()> {
    match object_lookup(fields, name) {
        None => Ok(None),
        Some(ResolvedValue::String(s)) => Ok(Some(s@)),
        Some(_) => Err(()),
    }
}

pub open spec fn opt_string_view(o: Option<String>) -> Option<Seq<char>> {
    match o {
        Some(s) => Some(s@),
        None => None,
    }
}

/// What an object asks of the cluster.
#[derive(Debug, Clone)]
pub struct K8sQuery {
    pub kind: String,
    pub namespace: Option<String>,
    pub name: Option<String>,
    pub name_prefix: Option<String>,
    pub label_selector: Option<String>,
}

/// The query of an object, when its fields are well typed and name a kind.
pub open spec fn query_matches(fields: Seq<ObjectField>, q: K8sQuery) -> bool {
    &&& optional_string(fields, "kind"@) == Ok::<Option<Seq<char>>, ()>(Some(q.kind@))
    &&& optional_string(fields, "namespace"@) == Ok::<Option<Seq<char>>, ()>(opt_string_view(q.namespace))
    &&& optional_string(fields, "name"@) == Ok::<Option<Seq<char>>, ()>(opt_string_view(q.name))
    &&& optional_string(fields, "name_prefix"@) == Ok::<Option<Seq<char>>, ()>(opt_string_view(q.name_prefix))
    &&& optional_string(fields, "label_selector"@) == Ok::<Option<Seq<char>>, ()>(opt_string_view(q.label_selector))
}

pub open spec fn query_ok(fields: Seq<ObjectField>) -> bool {
    &&& optional_string(fields, "kind"@) matches Ok(Some(_))
    &&& optional_string(fields, "namespace"@) is Ok
    &&& optional_string(fields, "name"@) is Ok
    &&& optional_string(fields, "name_prefix"@) is Ok
    &&& optional_string(fields, "label_selector"@) is Ok
}

fn extract_optional(object: &ExecutableObject, name: &str) -> (r: Result<Option<String>, CollectionError>)
    ensures
        r matches Ok(o) ==> optional_string(object.fields@, name@) == Ok::<Option<Seq<char>>, ()>(opt_string_view(o)),
        r is Err ==> optional_string(object.fields@, name@) is Err,
        r matches Err(e) ==> e is InvalidObjectConfiguration,
{
    match object.get_field(name) {
        None => Ok(None),
        Some(ResolvedValue::String(s)) => Ok(Some(s)),
        Some(_) => {
            let mut reason = String::from_str("Field '");
            reason.append(name);
            reason.append("' must be a string");
            Err(CollectionError::InvalidObjectConfiguration { object_id: object.identifier.clone(), reason })
        },
    }
}

impl K8sResourceCollector {
    /// The query an object asks for: a required `kind`, and optional `namespace`, `name`,
    /// `name_prefix` and `label_selector`, all strings.
    pub fn extract_query(&self, object: &ExecutableObject) -> (r: Result<K8sQuery, CollectionError>)
        ensures
            r is Ok <==> query_ok(object.fields@),
            r matches Ok(q) ==> query_matches(object.fields@, q),
            r matches Err(e) ==> e is InvalidObjectConfiguration,
    {
        let kind = match extract_optional(object, "kind")? {
            Some(k) => k,
            None => {
                return Err(
                    CollectionError::InvalidObjectConfiguration {
                        object_id: object.identifier.clone(),
                        reason: String::from_str("Missing required field 'kind'"),
                    },
                );
            },
        };
        let namespace = extract_optional(object, "namespace")?;
        let name = extract_optional(object, "name")?;
        let name_prefix = extract_optional(object, "name_prefix")?;
        let label_selector = extract_optional(object, "label_selector")?;
        Ok(K8sQuery { kind, namespace, name, name_prefix, label_selector })
    }

    /// Data of a resource query: whether a resource was picked and how many matched.
    pub fn resource_data(&self, object_id: &str, query: &K8sQuery, command: String, count: i64, found: bool) -> (r: CollectedData)
        ensures
            r.object_id@ == object_id@,
            r.ctn_type@ == k8s_ctn_type(),
            bool_field(r, "found"@, found),
            int_field(r, "count"@, count as int),
    {
        let mut data = CollectedData::new(String::from_str(object_id), String::from_str("k8s_resource"), self.id.clone());
        let mut target = query.kind.clone();
        let mut inputs: Vec<MethodInput> = Vec::new();
        inputs.push(MethodInput { name: String::from_str("kind"), value: query.kind.clone() });
        match &query.namespace {
            Some(ns) => {
                target.append(":");
                target.append(ns.as_str());
                inputs.push(MethodInput { name: String::from_str("namespace"), value: ns.clone() });
            },
            None => {},
        }
        match &query.label_selector {
            Some(l) => {
                target.append(":");
                target.append(l.as_str());
            },
            None => {},
        }
        match &query.name {
            Some(n) => {
                inputs.push(MethodInput { name: String::from_str("name"), value: n.clone() });
            },
            None => {},
        }
        match &query.name_prefix {
            Some(p) => {
                inputs.push(MethodInput { name: String::from_str("name_prefix"), value: p.clone() });
            },
            None => {},
        }
        match &query.label_selector {
            Some(l) => {
                inputs.push(MethodInput { name: String::from_str("label_selector"), value: l.clone() });
            },
            None => {},
        }
        data.set_method(
            CollectionMethod {
                method_type: CollectionMethodType::Command,
                description: String::from_str("Query Kubernetes API for resources"),
                target,
                command: Some(command),
                inputs,
            },
        );
        proof {
            reveal_strlit("found");
            reveal_strlit("count");
            assert("found"@[0] == 'f' && "count"@[0] == 'c');
        }
        assert(data.fields@ =~= Seq::<crate::data::DataField>::empty());
        data.add_field(String::from_str("found"), ResolvedValue::Boolean(found));
        data.add_field(String::from_str("count"), ResolvedValue::Integer(count));
        data
    }
}

} // verus!
