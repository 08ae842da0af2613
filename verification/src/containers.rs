//! The container directory: which container runs a logical service, and which services
//! there are, judged by the label that the runtime puts on each container.

use vstd::prelude::*;
use vstd::string::*;

verus! {

/// The key of the label that names the service a container belongs to.
pub open spec fn service_label() -> Seq<char> {
    "com.docker.compose.service"@
}

/// The key of the label that names the service a container belongs to.
pub fn service_label_key() -> (key: String)
    ensures
        key@ == service_label(),
{
    String::from_str("com.docker.compose.service")
}

/// One label of a container.
#[derive(Debug, PartialEq, Eq)]
pub struct Label {
    pub key: String,
    pub value: String,
}

/// The map that a list of labels stands for: a later label replaces an earlier one of the
/// same key.
pub open spec fn labels_map(entries: Seq<Label>) -> Map<Seq<char>, Seq<char>>
    decreases entries.len(),
{
    if entries.len() == 0 {
        Map::empty()
    } else {
        labels_map(entries.drop_last()).insert(entries.last().key@, entries.last().value@)
    }
}

/// The labels of a container: a map from key to value.
#[derive(Debug, PartialEq, Eq)]
pub struct LabelMap {
    entries: Vec<Label>,
}

impl View for LabelMap {
    type V = Map<Seq<char>, Seq<char>>;

    closed spec fn view(&self) -> Map<Seq<char>, Seq<char>> {
        labels_map(self.entries@)
    }
}

impl LabelMap {
    /// The map without any label.
    pub fn new() -> (labels: LabelMap)
        ensures
            labels@ == Map::<Seq<char>, Seq<char>>::empty(),
    {
        LabelMap { entries: Vec::new() }
    }

    /// Sets the label `key` to `value`, in place of any value it had.
    pub fn insert(&mut self, key: String, value: String)
        ensures
            final(self)@ == old(self)@.insert(key@, value@),
    {
        let ghost before = self.entries@;
        self.entries.push(Label { key, value });
        assert(self.entries@.drop_last() =~= before);
    }

    /// The value of the label `key`, if the map has it.
    pub fn get(&self, key: &String) -> (value: Option<&String>)
        ensures
            match value {
                Some(found) => self@.dom().contains(key@) && found@ == self@[key@],
                None => !self@.dom().contains(key@),
            },
    {
        let mut at: usize = self.entries.len();
        assert(self.entries@.take(at as int) =~= self.entries@);
        while at > 0
            invariant
                at <= self.entries.len(),
                self@.dom().contains(key@) <==> labels_map(
                    self.entries@.take(at as int),
                ).dom().contains(key@),
                self@.dom().contains(key@) ==> self@[key@] == labels_map(
                    self.entries@.take(at as int),
                )[key@],
            decreases at,
        {
            at = at - 1;
            assert(self.entries@.take(at + 1).drop_last() =~= self.entries@.take(at as int));
            if self.entries[at].key == *key {
                return Some(&self.entries[at].value);
            }
        }
        assert(self.entries@.take(0).len() == 0);
        None
    }
}

/// A container, as the runtime lists it.
#[derive(Debug, PartialEq, Eq)]
pub struct Container {
    /// The runtime's identifier of the container, where it gave one.
    pub id: Option<String>,
    pub labels: LabelMap,
}

pub struct ContainerView {
    pub id: Option<Seq<char>>,
    pub labels: Map<Seq<char>, Seq<char>>,
}

impl DeepView for Container {
    type V = ContainerView;

    open spec fn deep_view(&self) -> ContainerView {
        ContainerView { id: self.id.deep_view(), labels: self.labels@ }
    }
}

/// The service that a container belongs to, where it carries the service label.
pub open spec fn service_of(container: ContainerView) -> Option<Seq<char>> {
    if container.labels.dom().contains(service_label()) {
        Some(container.labels[service_label()])
    } else {
        None
    }
}

/// `at` is the position of the first container, in listed order, whose service label is
/// exactly `service`.
pub open spec fn is_first_of_service(
    containers: Seq<ContainerView>,
    service: Seq<char>,
    at: int,
) -> bool {
    &&& 0 <= at < containers.len()
    &&& service_of(containers[at]) == Some(service)
    &&& forall|before: int|
        0 <= before < at ==> service_of(#[trigger] containers[before]) != Some(service)
}

/// No container carries the service label `service`.
pub open spec fn no_container_of(containers: Seq<ContainerView>, service: Seq<char>) -> bool {
    forall|at: int|
        0 <= at < containers.len() ==> service_of(#[trigger] containers[at]) != Some(service)
}

/// The identifier of the first container, in listed order, whose service label is exactly
/// `service`. There is none where no container carries that label, or where the runtime
/// gave the first that does no identifier.
pub open spec fn resolved_container(containers: Seq<ContainerView>, service: Seq<char>) -> Option<
    Seq<char>,
> {
    if exists|at: int| is_first_of_service(containers, service, at) {
        containers[choose|at: int| is_first_of_service(containers, service, at)].id
    } else {
        None
    }
}

/// The distinct service names of `containers`, each at the place where it is first seen.
pub open spec fn service_names(containers: Seq<ContainerView>) -> Seq<Seq<char>>
    decreases containers.len(),
{
    if containers.len() == 0 {
        Seq::empty()
    } else {
        let before = service_names(containers.drop_last());
        match service_of(containers.last()) {
            Some(name) => if before.contains(name) {
                before
            } else {
                before.push(name)
            },
            None => before,
        }
    }
}

/// Why the directory gave no answer.
#[derive(Debug, PartialEq, Eq)]
pub enum DirectoryError {
    /// No container runs the service.
    NotFound,
    /// The runtime could not be reached.
    RuntimeUnavailable { message: String },
}

pub enum DirectoryErrorView {
    NotFound,
    RuntimeUnavailable { message: Seq<char> },
}

impl View for DirectoryError {
    type V = DirectoryErrorView;

    open spec fn view(&self) -> DirectoryErrorView {
        match self {
            DirectoryError::NotFound => DirectoryErrorView::NotFound,
            DirectoryError::RuntimeUnavailable { message } => DirectoryErrorView::RuntimeUnavailable {
                message: message@,
            },
        }
    }
}

/// The HTTP status that reports a directory error.
pub open spec fn directory_error_status(error: DirectoryErrorView) -> u16 {
    match error {
        DirectoryErrorView::NotFound => 404,
        DirectoryErrorView::RuntimeUnavailable { .. } => 502,
    }
}

/// The text that goes with a directory error's status.
pub open spec fn directory_error_body(error: DirectoryErrorView) -> Seq<char> {
    match error {
        DirectoryErrorView::NotFound => "service not found"@,
        DirectoryErrorView::RuntimeUnavailable { message } => message,
    }
}

impl DirectoryError {
    /// The HTTP status that reports this error.
    pub fn status_code(&self) -> (status: u16)
        ensures
            status == directory_error_status(self@),
    {
        match self {
            DirectoryError::NotFound => 404,
            DirectoryError::RuntimeUnavailable { .. } => 502,
        }
    }

    /// The text that goes with the status.
    pub fn body(&self) -> (text: String)
        ensures
            text@ == directory_error_body(self@),
    {
        match self {
            DirectoryError::NotFound => String::from_str("service not found"),
            DirectoryError::RuntimeUnavailable { message } => message.clone(),
        }
    }
}

/// What the runtime gave when asked for its containers.
#[derive(Debug, PartialEq, Eq)]
pub enum ContainerListing {
    Listed { containers: Vec<Container> },
    Failed { error: String },
}

pub enum ContainerListingView {
    Listed { containers: Seq<ContainerView> },
    Failed { error: Seq<char> },
}

impl View for ContainerListing {
    type V = ContainerListingView;

    open spec fn view(&self) -> ContainerListingView {
        match self {
            ContainerListing::Listed { containers } => ContainerListingView::Listed {
                containers: containers.deep_view(),
            },
            ContainerListing::Failed { error } => ContainerListingView::Failed { error: error@ },
        }
    }
}

impl Container {
    /// The service that the container belongs to, where it carries the service label.
    pub fn service(&self) -> (service: Option<&String>)
        ensures
            match service {
                Some(name) => service_of(self.deep_view()) == Some(name@),
                None => service_of(self.deep_view()) is None,
            },
    {
        let key = service_label_key();
        self.labels.get(&key)
    }
}

/// The service that `container` belongs to, looked up under the service label `key`.
fn container_service<'a>(container: &'a Container, key: &String) -> (service: Option<&'a String>)
    requires
        key@ == service_label(),
    ensures
        match service {
            Some(name) => service_of(container.deep_view()) == Some(name@),
            None => service_of(container.deep_view()) is None,
        },
{
    container.labels.get(key)
}

/// Finds the container that runs `service`: the first, in listed order, whose service label
/// is exactly `service`.
pub fn resolve_by_service_label(containers: &Vec<Container>, service: &str) -> (found: Result<
    String,
    DirectoryError,
>)
    ensures
        match resolved_container(containers.deep_view(), service@) {
            Some(id) => found is Ok && found->Ok_0@ == id,
            None => found is Err && found->Err_0@ == DirectoryErrorView::NotFound,
        },
{
    let key = service_label_key();
    let wanted = String::from_str(service);
    let ghost listed = containers.deep_view();
    let mut at: usize = 0;
    while at < containers.len()
        invariant
            at <= containers.len(),
            listed == containers.deep_view(),
            key@ == service_label(),
            wanted@ == service@,
            forall|before: int|
                0 <= before < at ==> service_of(#[trigger] listed[before]) != Some(service@),
        decreases containers.len() - at,
    {
        assert(listed[at as int] == containers[at as int].deep_view());
        match container_service(&containers[at], &key) {
            Some(name) => {
                if *name == wanted {
                    assert(is_first_of_service(listed, service@, at as int));
                    proof {
                        lemma_first_of_service_is(listed, service@, at as int);
                    }
                    return match &containers[at].id {
                        Some(id) => Ok(id.clone()),
                        None => Err(DirectoryError::NotFound),
                    };
                }
            },
            None => {},
        }
        at = at + 1;
    }
    proof {
        assert(no_container_of(listed, service@));
        if exists|at: int| is_first_of_service(listed, service@, at) {
            let at = choose|at: int| is_first_of_service(listed, service@, at);
            assert(service_of(listed[at]) != Some(service@));
        }
    }
    Err(DirectoryError::NotFound)
}

/// The first container of a service is the only position that the definition can choose.
pub proof fn lemma_first_of_service_is(containers: Seq<ContainerView>, service: Seq<char>, at: int)
    requires
        is_first_of_service(containers, service, at),
    ensures
        resolved_container(containers, service) == containers[at].id,
{
    let chosen = choose|at: int| is_first_of_service(containers, service, at);
    assert(is_first_of_service(containers, service, chosen));
    if chosen < at {
        assert(service_of(containers[chosen]) != Some(service));
    } else if at < chosen {
        assert(service_of(containers[at]) != Some(service));
    }
}

/// Whether `names` holds `name`.
fn holds_name(names: &Vec<String>, name: &String) -> (held: bool)
    ensures
        held == names.deep_view().contains(name@),
{
    let mut at: usize = 0;
    while at < names.len()
        invariant
            at <= names.len(),
            forall|before: int| 0 <= before < at ==> names.deep_view()[before] != name@,
        decreases names.len() - at,
    {
        assert(names.deep_view()[at as int] == names[at as int]@);
        if names[at] == *name {
            return true;
        }
        at = at + 1;
    }
    false
}

/// Lists the services that `containers` belong to: each name once, in the order in which
/// the names are first seen.
pub fn list_service_names(containers: &Vec<Container>) -> (names: Vec<String>)
    ensures
        names.deep_view() == service_names(containers.deep_view()),
{
    let key = service_label_key();
    let ghost listed = containers.deep_view();
    let mut names: Vec<String> = Vec::new();
    let mut at: usize = 0;
    assert(names.deep_view() =~= Seq::<Seq<char>>::empty());
    while at < containers.len()
        invariant
            at <= containers.len(),
            listed == containers.deep_view(),
            key@ == service_label(),
            names.deep_view() == service_names(listed.take(at as int)),
        decreases containers.len() - at,
    {
        assert(listed[at as int] == containers[at as int].deep_view());
        assert(listed.take(at + 1).drop_last() =~= listed.take(at as int));
        assert(listed.take(at + 1).last() == listed[at as int]);
        match container_service(&containers[at], &key) {
            Some(name) => {
                if !holds_name(&names, name) {
                    let ghost before = names.deep_view();
                    names.push(name.clone());
                    assert(names.deep_view() =~= before.push(name@));
                }
            },
            None => {},
        }
        at = at + 1;
    }
    assert(listed.take(containers.len() as int) =~= listed);
    names
}

/// The services of a listing, or why there are none to give: a runtime that could not be
/// reached is reported with what it said.
pub open spec fn listed_services(listing: ContainerListingView) -> Result<
    Seq<Seq<char>>,
    DirectoryErrorView,
> {
    match listing {
        ContainerListingView::Listed { containers } => Ok(service_names(containers)),
        ContainerListingView::Failed { error } => Err(
            DirectoryErrorView::RuntimeUnavailable { message: error },
        ),
    }
}

/// Answers the question which services there are from what the runtime listed.
pub fn services_of_listing(listing: ContainerListing) -> (services: Result<
    Vec<String>,
    DirectoryError,
>)
    ensures
        match listed_services(listing@) {
            Ok(names) => services is Ok && services->Ok_0.deep_view() == names,
            Err(error) => services is Err && services->Err_0@ == error,
        },
{
    match listing {
        ContainerListing::Listed { containers } => Ok(list_service_names(&containers)),
        ContainerListing::Failed { error } => Err(
            DirectoryError::RuntimeUnavailable { message: error },
        ),
    }
}

/// A name is listed exactly where some container belongs to the service of that name.
pub proof fn lemma_service_names_complete(containers: Seq<ContainerView>, name: Seq<char>)
    ensures
        service_names(containers).contains(name) <==> exists|at: int|
            0 <= at < containers.len() && service_of(#[trigger] containers[at]) == Some(name),
    decreases containers.len(),
{
    if containers.len() > 0 {
        let earlier = containers.drop_last();
        let before = service_names(earlier);
        lemma_service_names_complete(earlier, name);
        let last = containers.len() - 1;
        if service_names(containers).contains(name) {
            if before.contains(name) {
                let at = choose|at: int|
                    0 <= at < earlier.len() && service_of(#[trigger] earlier[at]) == Some(name);
                assert(containers[at] == earlier[at]);
            } else {
                assert(service_of(containers[last]) is Some);
                assert(before.push(service_of(containers[last])->0).contains(name));
                let at = choose|at: int|
                    0 <= at < before.len() + 1 && before.push(service_of(containers[last])->0)[at]
                        == name;
                if at < before.len() {
                    assert(before[at] == name);
                }
                assert(service_of(containers[last]) == Some(name));
            }
        }
        if exists|at: int|
            0 <= at < containers.len() && service_of(#[trigger] containers[at]) == Some(name) {
            let at = choose|at: int|
                0 <= at < containers.len() && service_of(#[trigger] containers[at]) == Some(name);
            if at < last {
                assert(earlier[at] == containers[at]);
                assert(before.contains(name));
                let held = choose|held: int| 0 <= held < before.len() && before[held] == name;
                assert(service_names(containers)[held] == name);
            } else {
                if !before.contains(name) {
                    assert(before.push(name)[before.len() as int] == name);
                } else {
                    let held = choose|held: int| 0 <= held < before.len() && before[held] == name;
                    assert(service_names(containers)[held] == name);
                }
            }
        }
    }
}

/// No name is listed twice.
pub proof fn lemma_service_names_distinct(containers: Seq<ContainerView>)
    ensures
        service_names(containers).no_duplicates(),
    decreases containers.len(),
{
    if containers.len() > 0 {
        lemma_service_names_distinct(containers.drop_last());
    }
}

/// Names are listed in the order in which they are first seen: the names of the first `n`
/// containers stand, unchanged, at the front of the names of all.
pub proof fn lemma_service_names_first_seen(containers: Seq<ContainerView>, n: int)
    requires
        0 <= n <= containers.len(),
    ensures
        service_names(containers.take(n)).is_prefix_of(service_names(containers)),
    decreases containers.len(),
{
    if n == containers.len() {
        assert(containers.take(n) =~= containers);
    } else {
        lemma_service_names_first_seen(containers.drop_last(), n);
        assert(containers.drop_last().take(n) =~= containers.take(n));
    }
}

} // verus!
