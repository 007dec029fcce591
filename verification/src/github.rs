//! The provider's interface: what is asked of it, the shape of its answers,
//! and the walk over the pages of a project board.

use vstd::prelude::*;

use crate::controller::AppError;

verus! {

/// Where page requests are posted.
pub const GITHUB_GRAPHQL_URL: &'static str = "https://api.github.com/graphql";

/// Where an authorization code is exchanged for a token pair.
pub const GITHUB_TOKEN_URL: &'static str = "https://github.com/login/oauth/access_token";

/// Where the user behind an access token is asked for.
pub const GITHUB_USER_URL: &'static str = "https://api.github.com/user";

/// The `Accept` header that every request to the provider carries.
pub const ACCEPT: &'static str = "application/json";

/// The `User-Agent` header that every request to the provider carries.
pub const USER_AGENT: &'static str = "Argonath-App";

/// The token pair that the provider issues for an authorization code.
/// `expires_in` is the access token's lifetime in seconds.
#[derive(Debug)]
pub struct OauthResponse {
    pub access_token: String,
    pub refresh_token: String,
    pub expires_in: i64,
}

/// What an [`OauthResponse`] holds, as mathematical values.
pub struct OauthResponseView {
    pub access_token: Seq<char>,
    pub refresh_token: Seq<char>,
    pub expires_in: i64,
}

impl View for OauthResponse {
    type V = OauthResponseView;

    open spec fn view(&self) -> OauthResponseView {
        OauthResponseView {
            access_token: self.access_token@,
            refresh_token: self.refresh_token@,
            expires_in: self.expires_in,
        }
    }
}

/// The user behind an access token, as the provider names them.
#[derive(Debug)]
pub struct UserResponse {
    pub login: String,
}

impl View for UserResponse {
    type V = Seq<char>;

    open spec fn view(&self) -> Seq<char> {
        self.login@
    }
}

/// The value of the `Authorization` header for `access_token`.
pub open spec fn bearer_of(access_token: Seq<char>) -> Seq<char> {
    "Bearer "@ + access_token
}

/// The value of the `Authorization` header for `access_token`.
pub fn bearer(access_token: &str) -> (header: String)
    ensures
        header@ == bearer_of(access_token@),
{
    let mut header = "Bearer ".to_owned();
    header.append(access_token);
    header
}

/// The exchange of an authorization code for a token pair: the address to
/// post to, and the fields of the body.
#[derive(Debug)]
pub struct TokenRequest {
    pub url: &'static str,
    pub client_id: String,
    pub code: String,
    pub client_secret: String,
}

/// What a [`TokenRequest`] holds, as mathematical values.
pub struct TokenRequestView {
    pub url: Seq<char>,
    pub client_id: Seq<char>,
    pub code: Seq<char>,
    pub client_secret: Seq<char>,
}

impl View for TokenRequest {
    type V = TokenRequestView;

    open spec fn view(&self) -> TokenRequestView {
        TokenRequestView {
            url: self.url@,
            client_id: self.client_id@,
            code: self.code@,
            client_secret: self.client_secret@,
        }
    }
}

/// The request that exchanges `code` under the client `client_id`.
pub open spec fn token_request(client_id: Seq<char>, code: Seq<char>, client_secret: Seq<char>) -> TokenRequestView {
    TokenRequestView { url: GITHUB_TOKEN_URL@, client_id, code, client_secret }
}

/// The request that exchanges the authorization code `code` for a token
/// pair, under the client `client_id` with the secret `client_secret`.
pub fn post_login_oauth_access_token(client_id: &str, code: &str, client_secret: &str) -> (request:
    TokenRequest)
    ensures
        request@ == token_request(client_id@, code@, client_secret@),
{
    TokenRequest {
        url: GITHUB_TOKEN_URL,
        client_id: client_id.to_owned(),
        code: code.to_owned(),
        client_secret: client_secret.to_owned(),
    }
}

/// The question for the user behind an access token: the address to get,
/// and the `Authorization` header.
#[derive(Debug)]
pub struct UserRequest {
    pub url: &'static str,
    pub authorization: String,
}

/// What a [`UserRequest`] holds, as mathematical values.
pub struct UserRequestView {
    pub url: Seq<char>,
    pub authorization: Seq<char>,
}

impl View for UserRequest {
    type V = UserRequestView;

    open spec fn view(&self) -> UserRequestView {
        UserRequestView { url: self.url@, authorization: self.authorization@ }
    }
}

/// The request that asks for the user behind `access_token`.
pub open spec fn user_request(access_token: Seq<char>) -> UserRequestView {
    UserRequestView { url: GITHUB_USER_URL@, authorization: bearer_of(access_token) }
}

/// The request that asks the provider for the user behind `access_token`.
pub fn get_user(access_token: &str) -> (request: UserRequest)
    ensures
        request@ == user_request(access_token@),
{
    UserRequest { url: GITHUB_USER_URL, authorization: bearer(access_token) }
}

/// A work item that carries no task classification.
#[derive(Debug)]
pub struct Item {
    pub title: String,
    pub author: String,
    pub url: String,
}

/// What an [`Item`] holds, as mathematical values.
pub struct ItemView {
    pub title: Seq<char>,
    pub author: Seq<char>,
    pub url: Seq<char>,
}

impl View for Item {
    type V = ItemView;

    open spec fn view(&self) -> ItemView {
        ItemView { title: self.title@, author: self.author@, url: self.url@ }
    }
}

impl PartialEq for Item {
    fn eq(&self, other: &Item) -> (equal: bool) {
        self.title == other.title && self.author == other.author && self.url == other.url
    }
}

impl vstd::std_specs::cmp::PartialEqSpecImpl for Item {
    open spec fn obeys_eq_spec() -> bool {
        true
    }

    open spec fn eq_spec(&self, other: &Item) -> bool {
        self@ == other@
    }
}

/// The views of a sequence of items, in the same order.
pub open spec fn item_views(items: Seq<Item>) -> Seq<ItemView> {
    items.map_values(|item: Item| item@)
}

/// The author of an issue.
#[derive(Debug)]
pub struct Author {
    pub login: String,
}

/// An issue behind an item of the board.
#[derive(Debug)]
pub struct Issue {
    pub title: String,
    pub url: String,
    pub author: Option<Author>,
}

/// The record behind an item of the board.
#[derive(Debug)]
pub enum Content {
    Issue(Issue),
    PullRequest,
    DraftIssue,
}

/// One item of the board as a page reports it. `task_type` is the name of
/// the item's task classification, where it has one.
#[derive(Debug)]
pub struct Node {
    pub task_type: Option<String>,
    pub content: Option<Content>,
}

/// Where a page ends and whether another one follows it.
#[derive(Debug)]
pub struct PageInfo {
    pub end_cursor: Option<String>,
    pub has_next_page: bool,
}

/// The items of one page, with the page's position in the collection.
#[derive(Debug)]
pub struct Items {
    pub page_info: PageInfo,
    pub nodes: Option<Vec<Option<Node>>>,
}

#[derive(Debug)]
pub struct Project {
    pub items: Items,
}

#[derive(Debug)]
pub struct Organization {
    pub project_v2: Option<Project>,
}

#[derive(Debug)]
pub struct ResponseData {
    pub organization: Option<Organization>,
}

/// The decoded answer to one page request. Every level of it may be absent.
#[derive(Debug)]
pub struct ProjectsResponse {
    pub data: Option<ResponseData>,
}

/// The item that a node contributes to the output: none, unless the node is
/// there, carries no task classification, and stands for an issue with an
/// author.
pub open spec fn node_item(node: Option<Node>) -> Option<ItemView> {
    match node {
        Some(Node { task_type: None, content: Some(Content::Issue(issue)) }) => match issue.author {
            Some(author) => Some(
                ItemView { title: issue.title@, author: author.login@, url: issue.url@ },
            ),
            None => None,
        },
        _ => None,
    }
}

/// The items that a sequence of nodes contributes, in the nodes' order.
pub open spec fn unmapped(nodes: Seq<Option<Node>>) -> Seq<ItemView>
    decreases nodes.len(),
{
    if nodes.len() == 0 {
        Seq::empty()
    } else {
        match node_item(nodes.last()) {
            Some(item) => unmapped(nodes.drop_last()).push(item),
            None => unmapped(nodes.drop_last()),
        }
    }
}

/// The item that `node` contributes, if any.
pub fn unmapped_item(node: &Option<Node>) -> (item: Option<Item>)
    ensures
        match item {
            Some(item) => node_item(*node) == Some(item@),
            None => node_item(*node) is None,
        },
{
    match node {
        Some(Node { task_type: None, content: Some(Content::Issue(issue)) }) => match &issue.author {
            Some(author) => Some(
                Item {
                    title: issue.title.clone(),
                    author: author.login.clone(),
                    url: issue.url.clone(),
                },
            ),
            None => None,
        },
        _ => None,
    }
}

/// Appends to `results` the items that `nodes` contribute.
pub fn collect_unmapped(nodes: &Vec<Option<Node>>, results: &mut Vec<Item>)
    ensures
        item_views(final(results)@) == item_views(old(results)@) + unmapped(nodes@),
{
    let mut i: usize = 0;
    while i < nodes.len()
        invariant
            i <= nodes.len(),
            item_views(results@) == item_views(old(results)@) + unmapped(nodes@.take(i as int)),
        decreases nodes.len() - i,
    {
        proof {
            let before = nodes@.take(i as int);
            let after = nodes@.take(i + 1);
            assert(after.drop_last() =~= before);
            assert(after.last() == nodes@[i as int]);
        }
        let ghost held = results@;
        if let Some(item) = unmapped_item(&nodes[i]) {
            results.push(item);
            assert(item_views(results@) =~= item_views(held).push(item@));
        }
        i += 1;
    }
    assert(nodes@.take(nodes.len() as int) =~= nodes@);
}

/// How many items one page request asks for.
pub const FETCH_AMOUNT: i64 = 100;

/// The variables of one page request: the board, and where in its items the
/// page starts (`after` is the end of the page before it; none for the first).
#[derive(Debug)]
pub struct Variables {
    pub after: Option<String>,
    pub id: i64,
    pub org: String,
    pub first: i64,
}

/// What a [`Variables`] holds, as mathematical values.
pub struct VariablesView {
    pub after: Option<Seq<char>>,
    pub id: i64,
    pub org: Seq<char>,
    pub first: i64,
}

impl View for Variables {
    type V = VariablesView;

    open spec fn view(&self) -> VariablesView {
        VariablesView {
            after: self.after.deep_view(),
            id: self.id,
            org: self.org@,
            first: self.first,
        }
    }
}

impl Clone for Variables {
    fn clone(&self) -> (copy: Variables)
        ensures
            copy@ == self@,
    {
        let after = match &self.after {
            Some(cursor) => Some(cursor.clone()),
            None => None,
        };
        Variables { after, id: self.id, org: self.org.clone(), first: self.first }
    }
}

/// The query that asks for one page of a board's items.
pub const PROJECTS_QUERY: &'static str =
    "query ProjectsQuery($org: String!, $id: Int!, $first: Int!, $after: String) { organization(login: $org) { projectV2(number: $id) { items(first: $first, after: $after) { pageInfo { endCursor hasNextPage } nodes { taskType: fieldValueByName(name: \"Task Type\") { __typename ... on ProjectV2ItemFieldSingleSelectValue { name } } content { __typename ... on Issue { title url author { __typename login } } } } } } } }";

/// The name of the operation in [`PROJECTS_QUERY`].
pub const OPERATION_NAME: &'static str = "ProjectsQuery";

/// The body of a page request: the query, its name and its variables.
#[derive(Debug)]
pub struct QueryBody {
    pub variables: Variables,
    pub query: &'static str,
    pub operation_name: &'static str,
}

/// One page request: the address to post to, the `Authorization` header and
/// the body.
#[derive(Debug)]
pub struct PageRequest {
    pub url: &'static str,
    pub authorization: String,
    pub body: QueryBody,
}

/// The query for the pages of a board.
#[derive(Debug)]
pub struct ProjectsQuery;

impl ProjectsQuery {
    /// The body of the request for the page that `variables` describe.
    pub fn build_query(variables: Variables) -> (body: QueryBody)
        ensures
            body.variables == variables,
            body.query@ == PROJECTS_QUERY@,
            body.operation_name@ == OPERATION_NAME@,
    {
        QueryBody { variables, query: PROJECTS_QUERY, operation_name: OPERATION_NAME }
    }
}

/// The items of the page in `response`, where every level down to them is
/// present.
pub open spec fn items_of(response: ProjectsResponse) -> Option<Items> {
    match response.data {
        Some(ResponseData { organization: Some(Organization { project_v2: Some(project) }) }) => Some(
            project.items,
        ),
        _ => None,
    }
}

/// Whether another page follows the one in `response`. A response without
/// items is the last page.
pub open spec fn has_next_page(response: ProjectsResponse) -> bool {
    match items_of(response) {
        Some(items) => items.page_info.has_next_page,
        None => false,
    }
}

/// Where the page in `response` ends.
pub open spec fn end_cursor(response: ProjectsResponse) -> Option<Seq<char>> {
    match items_of(response) {
        Some(items) => items.page_info.end_cursor.deep_view(),
        None => None,
    }
}

/// The nodes of the page in `response`. A response without items, or whose
/// items hold no nodes, is an empty page.
pub open spec fn page_nodes(response: ProjectsResponse) -> Seq<Option<Node>> {
    match items_of(response) {
        Some(Items { nodes: Some(nodes), .. }) => nodes@,
        _ => Seq::empty(),
    }
}

/// Takes the items out of a response.
pub fn into_items(response: ProjectsResponse) -> (items: Option<Items>)
    ensures
        items == items_of(response),
{
    match response.data {
        Some(ResponseData { organization: Some(Organization { project_v2: Some(project) }) }) => Some(
            project.items,
        ),
        _ => None,
    }
}

/// Where the walk over a board's pages stands.
#[derive(Debug)]
pub enum Fetch {
    /// The page that `variables` describe is to be requested under
    /// `authorization`, and its outcome handed to [`Fetch::resume`].
    /// `collected` holds the items of the pages before it.
    Request { authorization: String, variables: Variables, collected: Vec<Item> },
    /// Every page was walked: these are the board's unmapped items.
    Done(Vec<Item>),
    /// A page could not be had. Nothing of what was collected is handed out.
    Failed(AppError),
}

/// What a [`Fetch`] holds, as mathematical values.
pub enum FetchView {
    Request { authorization: Seq<char>, variables: VariablesView, collected: Seq<ItemView> },
    Done(Seq<ItemView>),
    Failed,
}

impl View for Fetch {
    type V = FetchView;

    open spec fn view(&self) -> FetchView {
        match self {
            Fetch::Request { authorization, variables, collected } => FetchView::Request {
                authorization: authorization@,
                variables: variables@,
                collected: item_views(collected@),
            },
            Fetch::Done(items) => FetchView::Done(item_views(items@)),
            Fetch::Failed(_) => FetchView::Failed,
        }
    }
}

/// The first state of a walk over the board `id` of `org` with the access
/// token `access_token`: the first page is to be requested, and nothing is
/// collected.
pub open spec fn fetch_begin(org: Seq<char>, id: u32, access_token: Seq<char>) -> FetchView {
    FetchView::Request {
        authorization: bearer_of(access_token),
        variables: VariablesView { after: None, id: id as i64, org, first: FETCH_AMOUNT },
        collected: Seq::empty(),
    }
}

/// The state that follows `state` once the pending request has ended in
/// `outcome`.
///
/// A failure ends the walk. A page adds its unmapped items to what is
/// collected; then the walk is done, or the page after it is to be requested
/// from where this one ended, under the same authorization. A state without
/// a pending request stays as it is.
pub open spec fn fetch_step(state: FetchView, outcome: Result<ProjectsResponse, AppError>) -> FetchView {
    match state {
        FetchView::Request { authorization, variables, collected } => match outcome {
            Err(_) => FetchView::Failed,
            Ok(page) => {
                let collected = collected + unmapped(page_nodes(page));
                if has_next_page(page) {
                    FetchView::Request {
                        authorization,
                        variables: VariablesView { after: end_cursor(page), ..variables },
                        collected,
                    }
                } else {
                    FetchView::Done(collected)
                }
            },
        },
        _ => state,
    }
}

/// Starts the walk over the unmapped items of the board `id` of the
/// organization `org`, with the access token `access_token`.
pub fn get_unmapped_items(org: String, id: u32, access_token: &str) -> (state: Fetch)
    ensures
        state@ == fetch_begin(org@, id, access_token@),
{
    let state = Fetch::Request {
        authorization: bearer(access_token),
        variables: Variables { after: None, id: id as i64, org, first: FETCH_AMOUNT },
        collected: Vec::new(),
    };
    assert(item_views(Seq::<Item>::empty()) =~= Seq::<ItemView>::empty());
    state
}

impl Fetch {
    /// The request that is pending, if one is.
    pub fn request(&self) -> (request: Option<PageRequest>)
        ensures
            match self@ {
                FetchView::Request { authorization, variables, .. } => {
                    &&& request matches Some(request)
                    &&& request.url@ == GITHUB_GRAPHQL_URL@
                    &&& request.authorization@ == authorization
                    &&& request.body.variables@ == variables
                    &&& request.body.query@ == PROJECTS_QUERY@
                    &&& request.body.operation_name@ == OPERATION_NAME@
                },
                _ => request is None,
            },
    {
        match self {
            Fetch::Request { authorization, variables, .. } => Some(
                PageRequest {
                    url: GITHUB_GRAPHQL_URL,
                    authorization: authorization.clone(),
                    body: ProjectsQuery::build_query(variables.clone()),
                },
            ),
            _ => None,
        }
    }

    /// Takes the outcome of the pending request and moves on.
    pub fn resume(self, outcome: Result<ProjectsResponse, AppError>) -> (state: Fetch)
        ensures
            state@ == fetch_step(self@, outcome),
    {
        match self {
            Fetch::Request { authorization, variables, collected } => match outcome {
                Err(error) => Fetch::Failed(error),
                Ok(page) => {
                    let mut collected = collected;
                    match into_items(page) {
                        None => {
                            assert(item_views(collected@) + Seq::<ItemView>::empty() =~= item_views(
                                collected@,
                            ));
                            Fetch::Done(collected)
                        },
                        Some(items) => {
                            match &items.nodes {
                                Some(nodes) => {
                                    collect_unmapped(nodes, &mut collected);
                                },
                                None => {
                                    assert(item_views(collected@) + Seq::<ItemView>::empty()
                                        =~= item_views(collected@));
                                },
                            }
                            if items.page_info.has_next_page {
                                Fetch::Request {
                                    authorization,
                                    variables: Variables {
                                        after: items.page_info.end_cursor,
                                        id: variables.id,
                                        org: variables.org,
                                        first: variables.first,
                                    },
                                    collected,
                                }
                            } else {
                                Fetch::Done(collected)
                            }
                        },
                    }
                },
            },
            other => other,
        }
    }
}

/// The state that the walk reaches from `state` when its requests end, one
/// after the other, in `outcomes`.
pub open spec fn fetch_run(state: FetchView, outcomes: Seq<Result<ProjectsResponse, AppError>>) -> FetchView
    decreases outcomes.len(),
{
    if outcomes.len() == 0 {
        state
    } else {
        fetch_run(fetch_step(state, outcomes.first()), outcomes.drop_first())
    }
}

/// How many requests the walk makes from `state` on, when `outcomes` is what
/// its requests would end in, one after the other: a request is made as long
/// as one is pending and an outcome is left for it.
pub open spec fn requests_made(state: FetchView, outcomes: Seq<Result<ProjectsResponse, AppError>>) -> nat
    decreases outcomes.len(),
{
    if state is Request && outcomes.len() > 0 {
        1 + requests_made(fetch_step(state, outcomes.first()), outcomes.drop_first())
    } else {
        0
    }
}

/// The outcomes of requests that all succeed, with `pages` as their answers.
pub open spec fn answered(pages: Seq<ProjectsResponse>) -> Seq<Result<ProjectsResponse, AppError>> {
    pages.map_values(|page: ProjectsResponse| Ok::<ProjectsResponse, AppError>(page))
}

/// The unmapped items of `pages`, page after page.
pub open spec fn unmapped_of_pages(pages: Seq<ProjectsResponse>) -> Seq<ItemView>
    decreases pages.len(),
{
    if pages.len() == 0 {
        Seq::empty()
    } else {
        unmapped(page_nodes(pages.first())) + unmapped_of_pages(pages.drop_first())
    }
}

/// `pages` is a whole collection: every page but the last says that another
/// one follows, and the last says that none does.
pub open spec fn paged(pages: Seq<ProjectsResponse>) -> bool {
    &&& pages.len() > 0
    &&& forall|i: int| 0 <= i < pages.len() - 1 ==> has_next_page(#[trigger] pages[i])
    &&& !has_next_page(pages.last())
}

/// `item` is what `node` stands for, and `node` is an issue with an author
/// and without a task classification.
pub open spec fn is_unmapped_issue(node: Option<Node>, item: ItemView) -> bool {
    &&& node matches Some(node)
    &&& node.task_type is None
    &&& node.content matches Some(Content::Issue(issue))
    &&& issue.author matches Some(author)
    &&& item == ItemView { title: issue.title@, author: author.login@, url: issue.url@ }
}

/// A node with a task classification contributes nothing, whatever else it
/// holds.
pub proof fn law_classified_node_is_left_out(node: Node)
    requires
        node.task_type is Some,
    ensures
        node_item(Some(node)) is None,
{
}

/// A node whose content is absent, or is no issue, contributes nothing.
pub proof fn law_other_content_is_left_out(node: Node)
    requires
        !(node.content matches Some(Content::Issue(_))),
    ensures
        node_item(Some(node)) is None,
{
}

/// An issue without an author contributes nothing.
pub proof fn law_authorless_issue_is_left_out(node: Node)
    requires
        node.content matches Some(Content::Issue(issue)) && issue.author is None,
    ensures
        node_item(Some(node)) is None,
{
}

/// The items of two runs of nodes, one after the other, are the items of the
/// first followed by those of the second.
pub proof fn lemma_unmapped_concat(front: Seq<Option<Node>>, back: Seq<Option<Node>>)
    ensures
        unmapped(front + back) == unmapped(front) + unmapped(back),
    decreases back.len(),
{
    if back.len() == 0 {
        assert(front + back =~= front);
        assert(unmapped(front) + unmapped(back) =~= unmapped(front));
    } else {
        assert((front + back).drop_last() =~= front + back.drop_last());
        assert((front + back).last() == back.last());
        lemma_unmapped_concat(front, back.drop_last());
        assert(unmapped(front + back) =~= unmapped(front) + unmapped(back));
    }
}

/// A page lists the same items with or without a node that contributes
/// nothing.
pub proof fn law_left_out_node_changes_nothing(nodes: Seq<Option<Node>>, i: int)
    requires
        0 <= i < nodes.len(),
        node_item(nodes[i]) is None,
    ensures
        unmapped(nodes.remove(i)) == unmapped(nodes),
{
    let front = nodes.take(i);
    let one = seq![nodes[i]];
    let back = nodes.skip(i + 1);
    assert(nodes =~= front + one + back);
    assert(nodes.remove(i) =~= front + back);
    assert(one.last() == nodes[i]);
    assert(unmapped(one.drop_last()) =~= Seq::<ItemView>::empty());
    assert(unmapped(one) =~= Seq::<ItemView>::empty());
    lemma_unmapped_concat(front, one);
    lemma_unmapped_concat(front + one, back);
    lemma_unmapped_concat(front, back);
    assert(unmapped(front) + unmapped(one) =~= unmapped(front));
}

/// Every item that a run of nodes lists stands for one of its nodes: an
/// issue with an author and without a task classification.
pub proof fn law_listed_items_are_unmapped_issues(nodes: Seq<Option<Node>>, k: int)
    requires
        0 <= k < unmapped(nodes).len(),
    ensures
        exists|j: int| 0 <= j < nodes.len() && is_unmapped_issue(#[trigger] nodes[j], unmapped(nodes)[k]),
    decreases nodes.len(),
{
    if nodes.len() > 0 {
        let rest = nodes.drop_last();
        if k < unmapped(rest).len() {
            law_listed_items_are_unmapped_issues(rest, k);
            let j = choose|j: int| 0 <= j < rest.len() && is_unmapped_issue(#[trigger] rest[j], unmapped(rest)[k]);
            assert(nodes[j] == rest[j]);
        } else {
            let j = nodes.len() - 1;
            assert(is_unmapped_issue(nodes[j], unmapped(nodes)[k]));
        }
    }
}

/// Every item that a walk over `pages` hands out stands for a node of one of
/// the pages: an issue with an author and without a task classification.
pub proof fn law_output_holds_only_unmapped_issues(pages: Seq<ProjectsResponse>, k: int)
    requires
        0 <= k < unmapped_of_pages(pages).len(),
    ensures
        exists|p: int, j: int|
            0 <= p < pages.len() && 0 <= j < page_nodes(pages[p]).len() && is_unmapped_issue(
                #[trigger] page_nodes(pages[p])[j],
                unmapped_of_pages(pages)[k],
            ),
    decreases pages.len(),
{
    if pages.len() > 0 {
        let first = unmapped(page_nodes(pages.first()));
        let rest = pages.drop_first();
        if k < first.len() {
            law_listed_items_are_unmapped_issues(page_nodes(pages.first()), k);
            let j = choose|j: int|
                0 <= j < page_nodes(pages[0]).len() && is_unmapped_issue(
                    #[trigger] page_nodes(pages[0])[j],
                    first[k],
                );
            assert(is_unmapped_issue(page_nodes(pages[0])[j], unmapped_of_pages(pages)[k]));
        } else {
            law_output_holds_only_unmapped_issues(rest, k - first.len());
            let (p, j) = choose|p: int, j: int|
                0 <= p < rest.len() && 0 <= j < page_nodes(rest[p]).len() && is_unmapped_issue(
                    #[trigger] page_nodes(rest[p])[j],
                    unmapped_of_pages(rest)[k - first.len()],
                );
            assert(pages[p + 1] == rest[p]);
            assert(is_unmapped_issue(page_nodes(pages[p + 1])[j], unmapped_of_pages(pages)[k]));
        }
    }
}

/// From a pending request on, a walk over a whole collection of `n` pages
/// makes `n` requests and is then done, with what it had collected followed
/// by the unmapped items of the pages.
pub proof fn lemma_walk_from(
    authorization: Seq<char>,
    variables: VariablesView,
    collected: Seq<ItemView>,
    pages: Seq<ProjectsResponse>,
)
    requires
        paged(pages),
    ensures
        fetch_run(FetchView::Request { authorization, variables, collected }, answered(pages))
            == FetchView::Done(collected + unmapped_of_pages(pages)),
        requests_made(FetchView::Request { authorization, variables, collected }, answered(pages))
            == pages.len(),
    decreases pages.len(),
{
    let state = FetchView::Request { authorization, variables, collected };
    let outcomes = answered(pages);
    let page = pages.first();
    let rest = pages.drop_first();
    let held = collected + unmapped(page_nodes(page));
    assert(outcomes.first() == Ok::<ProjectsResponse, AppError>(page));
    assert(outcomes.drop_first() =~= answered(rest));
    if pages.len() == 1 {
        assert(page == pages.last());
        assert(unmapped_of_pages(rest) =~= Seq::<ItemView>::empty());
        assert(held =~= collected + unmapped_of_pages(pages));
        assert(fetch_step(state, outcomes.first()) == FetchView::Done(held));
        assert(fetch_run(FetchView::Done(held), answered(rest)) == FetchView::Done(held));
        assert(requests_made(FetchView::Done(held), answered(rest)) == 0);
    } else {
        assert(has_next_page(pages[0]));
        assert(rest.last() == pages.last());
        assert forall|i: int| 0 <= i < rest.len() - 1 implies has_next_page(#[trigger] rest[i]) by {
            assert(rest[i] == pages[i + 1]);
        }
        let next = VariablesView { after: end_cursor(page), ..variables };
        assert(fetch_step(state, outcomes.first()) == FetchView::Request {
            authorization,
            variables: next,
            collected: held,
        });
        lemma_walk_from(authorization, next, held, rest);
        assert(held + unmapped_of_pages(rest) =~= collected + unmapped_of_pages(pages));
    }
}

/// A walk over a collection of `n` pages, each but the last of which says
/// that another one follows, makes exactly `n` requests and then is done; it
/// hands out the unmapped items of all the pages, in their order.
pub proof fn law_one_request_for_each_page(
    org: Seq<char>,
    id: u32,
    access_token: Seq<char>,
    pages: Seq<ProjectsResponse>,
)
    requires
        paged(pages),
    ensures
        requests_made(fetch_begin(org, id, access_token), answered(pages)) == pages.len(),
        fetch_run(fetch_begin(org, id, access_token), answered(pages)) == FetchView::Done(
            unmapped_of_pages(pages),
        ),
{
    let variables = VariablesView { after: None, id: id as i64, org, first: FETCH_AMOUNT };
    lemma_walk_from(bearer_of(access_token), variables, Seq::empty(), pages);
    assert(Seq::<ItemView>::empty() + unmapped_of_pages(pages) =~= unmapped_of_pages(pages));
}

/// From a pending request on, a walk over pages that all say that another
/// one follows asks for the page after them from where the last of them
/// ended.
pub proof fn lemma_walk_goes_on(
    authorization: Seq<char>,
    variables: VariablesView,
    collected: Seq<ItemView>,
    pages: Seq<ProjectsResponse>,
)
    requires
        pages.len() > 0,
        forall|i: int| 0 <= i < pages.len() ==> has_next_page(#[trigger] pages[i]),
    ensures
        fetch_run(FetchView::Request { authorization, variables, collected }, answered(pages)) == (
        FetchView::Request {
            authorization,
            variables: VariablesView { after: end_cursor(pages.last()), ..variables },
            collected: collected + unmapped_of_pages(pages),
        }),
    decreases pages.len(),
{
    let state = FetchView::Request { authorization, variables, collected };
    let outcomes = answered(pages);
    let page = pages.first();
    let rest = pages.drop_first();
    let held = collected + unmapped(page_nodes(page));
    let next = VariablesView { after: end_cursor(page), ..variables };
    assert(outcomes.first() == Ok::<ProjectsResponse, AppError>(page));
    assert(outcomes.drop_first() =~= answered(rest));
    assert(has_next_page(pages[0]));
    let pending = FetchView::Request { authorization, variables: next, collected: held };
    assert(fetch_step(state, outcomes.first()) == pending);
    if pages.len() == 1 {
        assert(page == pages.last());
        assert(unmapped_of_pages(rest) =~= Seq::<ItemView>::empty());
        assert(held =~= collected + unmapped_of_pages(pages));
        assert(fetch_run(pending, answered(rest)) == pending);
    } else {
        assert(rest.last() == pages.last());
        assert forall|i: int| 0 <= i < rest.len() implies has_next_page(#[trigger] rest[i]) by {
            assert(rest[i] == pages[i + 1]);
        }
        lemma_walk_goes_on(authorization, next, held, rest);
        assert(held + unmapped_of_pages(rest) =~= collected + unmapped_of_pages(pages));
    }
}

/// After pages that all say that another one follows, the walk asks for the
/// next page of the same board, under the same authorization, from where the
/// last page ended, and holds the unmapped items of the pages so far.
pub proof fn law_next_page_starts_where_the_last_ended(
    org: Seq<char>,
    id: u32,
    access_token: Seq<char>,
    pages: Seq<ProjectsResponse>,
)
    requires
        pages.len() > 0,
        forall|i: int| 0 <= i < pages.len() ==> has_next_page(#[trigger] pages[i]),
    ensures
        fetch_run(fetch_begin(org, id, access_token), answered(pages)) == (FetchView::Request {
            authorization: bearer_of(access_token),
            variables: VariablesView {
                after: end_cursor(pages.last()),
                id: id as i64,
                org,
                first: FETCH_AMOUNT,
            },
            collected: unmapped_of_pages(pages),
        }),
{
    let variables = VariablesView { after: None, id: id as i64, org, first: FETCH_AMOUNT };
    lemma_walk_goes_on(bearer_of(access_token), variables, Seq::empty(), pages);
    assert(Seq::<ItemView>::empty() + unmapped_of_pages(pages) =~= unmapped_of_pages(pages));
}

/// A page that could not be had ends the walk in failure, whatever was
/// collected before it.
pub proof fn law_failed_page_fails_the_walk(
    authorization: Seq<char>,
    variables: VariablesView,
    collected: Seq<ItemView>,
    error: AppError,
)
    ensures
        fetch_step(FetchView::Request { authorization, variables, collected }, Err(error))
            == FetchView::Failed,
{
}

/// Once the walk is done or has failed, no request is made and no outcome
/// changes it.
pub proof fn law_walk_ends(state: FetchView, outcomes: Seq<Result<ProjectsResponse, AppError>>)
    requires
        !(state is Request),
    ensures
        requests_made(state, outcomes) == 0,
        fetch_run(state, outcomes) == state,
    decreases outcomes.len(),
{
    if outcomes.len() > 0 {
        law_walk_ends(state, outcomes.drop_first());
    }
}

} // verus!
