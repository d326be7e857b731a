//! Vector stores: the bodies that create and modify one, and the requests of
//! the vector store endpoints.

use vstd::prelude::*;
use vstd::string::*;
use crate::json::Json;
use crate::openai::OpenAI;
use crate::payload::{
    lemma_name_if_contains, lemma_names_maybe, maybe, member_names, name_if, object_text,
    opt_decimal, opt_quoted, opt_quoted_array, Member, ObjectWriter,
};
use crate::request::{BodyView, Method, Request};
use crate::util::{maybe_param, query_text, UrlWriter};

verus! {

/// The vector store endpoints.
pub struct VectorsApi<'a>(pub &'a OpenAI);

/// A request to create a vector store. Each field is sent only once it has
/// been set.
pub struct VectorStoreCreationRequest {
    /// IDs of the files to include in the vector store
    pub file_ids: Option<Vec<String>>,
    /// Name for the vector store
    pub name: Option<String>,
    /// When the vector store expires
    pub expires_after: Option<Json>,
    /// Strategy for chunking the data
    pub chunking_strategy: Option<Json>,
    /// Metadata for the vector store
    pub metadata: Option<Json>,
}

impl Default for VectorStoreCreationRequest {
    /// A request with no field set.
    fn default() -> (r: Self)
        ensures
            r == (VectorStoreCreationRequest {
                file_ids: None,
                name: None,
                expires_after: None,
                chunking_strategy: None,
                metadata: None,
            }),
    {
        VectorStoreCreationRequest {
            file_ids: None,
            name: None,
            expires_after: None,
            chunking_strategy: None,
            metadata: None,
        }
    }
}

impl VectorStoreCreationRequest {
    /// The members of the body: each field that is set, in the order of
    /// declaration.
    pub open spec fn spec_members(&self) -> Seq<Member> {
        maybe("file_ids"@, opt_quoted_array(self.file_ids.deep_view()))
            + maybe("name"@, opt_quoted(self.name.deep_view()))
            + maybe("expires_after"@, self.expires_after.deep_view())
            + maybe("chunking_strategy"@, self.chunking_strategy.deep_view())
            + maybe("metadata"@, self.metadata.deep_view())
    }

    /// The names of the fields that are sent, in the order of declaration.
    pub open spec fn spec_keys(&self) -> Seq<Seq<char>> {
        name_if(self.file_ids is Some, "file_ids"@)
            + name_if(self.name is Some, "name"@)
            + name_if(self.expires_after is Some, "expires_after"@)
            + name_if(self.chunking_strategy is Some, "chunking_strategy"@)
            + name_if(self.metadata is Some, "metadata"@)
    }

    /// Sets the IDs of the files to include.
    pub fn file_ids(self, file_ids: Vec<String>) -> (r: Self)
        ensures
            r == (VectorStoreCreationRequest { file_ids: Some(file_ids), ..self }),
    {
        let mut r = self;
        r.file_ids = Some(file_ids);
        r
    }

    /// Sets the name of the vector store.
    pub fn name(self, name: String) -> (r: Self)
        ensures
            r == (VectorStoreCreationRequest { name: Some(name), ..self }),
    {
        let mut r = self;
        r.name = Some(name);
        r
    }

    /// Sets when the vector store expires.
    pub fn expires_after(self, expires_after: Json) -> (r: Self)
        ensures
            r == (VectorStoreCreationRequest { expires_after: Some(expires_after), ..self }),
    {
        let mut r = self;
        r.expires_after = Some(expires_after);
        r
    }

    /// Sets the strategy for chunking the data.
    pub fn chunking_strategy(self, chunking_strategy: Json) -> (r: Self)
        ensures
            r == (VectorStoreCreationRequest {
                chunking_strategy: Some(chunking_strategy),
                ..self
            }),
    {
        let mut r = self;
        r.chunking_strategy = Some(chunking_strategy);
        r
    }

    /// Sets the metadata of the vector store.
    pub fn metadata(self, metadata: Json) -> (r: Self)
        ensures
            r == (VectorStoreCreationRequest { metadata: Some(metadata), ..self }),
    {
        let mut r = self;
        r.metadata = Some(metadata);
        r
    }

    /// The body as JSON text.
    pub fn to_json(&self) -> (r: String)
        ensures
            r@ == object_text(self.spec_members()),
    {
        let w = ObjectWriter::new();
        let w = w.opt_string_list("file_ids", &self.file_ids);
        let w = w.opt_string("name", &self.name);
        let w = w.opt_json("expires_after", &self.expires_after);
        let w = w.opt_json("chunking_strategy", &self.chunking_strategy);
        let w = w.opt_json("metadata", &self.metadata);
        assert(w.members() =~= self.spec_members());
        w.finish()
    }

    /// The names of the members of the body are the names of the fields that
    /// are set, and no others.
    pub proof fn lemma_keys(&self)
        ensures
            member_names(self.spec_members()) == self.spec_keys(),
    {
        let m0 = Seq::<Member>::empty();
        let m1 = m0 + maybe("file_ids"@, opt_quoted_array(self.file_ids.deep_view()));
        let m2 = m1 + maybe("name"@, opt_quoted(self.name.deep_view()));
        let m3 = m2 + maybe("expires_after"@, self.expires_after.deep_view());
        let m4 = m3 + maybe("chunking_strategy"@, self.chunking_strategy.deep_view());
        let m5 = m4 + maybe("metadata"@, self.metadata.deep_view());
        lemma_names_maybe(m0, "file_ids"@, opt_quoted_array(self.file_ids.deep_view()));
        lemma_names_maybe(m1, "name"@, opt_quoted(self.name.deep_view()));
        lemma_names_maybe(m2, "expires_after"@, self.expires_after.deep_view());
        lemma_names_maybe(m3, "chunking_strategy"@, self.chunking_strategy.deep_view());
        lemma_names_maybe(m4, "metadata"@, self.metadata.deep_view());
        assert(m1 =~= maybe("file_ids"@, opt_quoted_array(self.file_ids.deep_view())));
        assert(m5 == self.spec_members());
        assert(member_names(m0) =~= Seq::<Seq<char>>::empty());
        assert(member_names(m1) =~= name_if(self.file_ids is Some, "file_ids"@));
        assert(member_names(m5) == self.spec_keys());
    }

    /// Whether a field of the name `k` is sent: a field once it is set, and
    /// nothing else.
    pub open spec fn sends(&self, k: Seq<char>) -> bool {
        ||| (self.file_ids is Some && k == "file_ids"@)
        ||| (self.name is Some && k == "name"@)
        ||| (self.expires_after is Some && k == "expires_after"@)
        ||| (self.chunking_strategy is Some && k == "chunking_strategy"@)
        ||| (self.metadata is Some && k == "metadata"@)
    }

    /// A name is among the names of the members of the body exactly where a
    /// field of that name is sent.
    pub proof fn lemma_sends(&self, k: Seq<char>)
        ensures
            member_names(self.spec_members()).contains(k) <==> self.sends(k),
    {
        self.lemma_keys();
        let s0 = Seq::<Seq<char>>::empty();
        let s1 = s0 + name_if(self.file_ids is Some, "file_ids"@);
        let s2 = s1 + name_if(self.name is Some, "name"@);
        let s3 = s2 + name_if(self.expires_after is Some, "expires_after"@);
        let s4 = s3 + name_if(self.chunking_strategy is Some, "chunking_strategy"@);
        let s5 = s4 + name_if(self.metadata is Some, "metadata"@);
        lemma_name_if_contains(s0, self.file_ids is Some, "file_ids"@, k);
        lemma_name_if_contains(s1, self.name is Some, "name"@, k);
        lemma_name_if_contains(s2, self.expires_after is Some, "expires_after"@, k);
        lemma_name_if_contains(s3, self.chunking_strategy is Some, "chunking_strategy"@, k);
        lemma_name_if_contains(s4, self.metadata is Some, "metadata"@, k);
        assert(s1 =~= name_if(self.file_ids is Some, "file_ids"@));
        assert(s5 == self.spec_keys());
    }
}

/// A request to modify a vector store. Each field is sent only where it holds
/// a value.
pub struct VectorStoreModificationRequest {
    /// Name for the vector store
    pub name: Option<String>,
    /// When the vector store expires
    pub expires_after: Option<Json>,
    /// Metadata for the vector store
    pub metadata: Option<Json>,
}

impl Default for VectorStoreModificationRequest {
    /// A request with no field set.
    fn default() -> (r: Self)
        ensures
            r == (VectorStoreModificationRequest {
                name: None,
                expires_after: None,
                metadata: None,
            }),
    {
        VectorStoreModificationRequest {
            name: None,
            expires_after: None,
            metadata: None,
        }
    }
}

impl VectorStoreModificationRequest {
    /// The members of the body: each field that is set, in the order of
    /// declaration.
    pub open spec fn spec_members(&self) -> Seq<Member> {
        maybe("name"@, opt_quoted(self.name.deep_view()))
            + maybe("expires_after"@, self.expires_after.deep_view())
            + maybe("metadata"@, self.metadata.deep_view())
    }

    /// The names of the fields that are sent, in the order of declaration.
    pub open spec fn spec_keys(&self) -> Seq<Seq<char>> {
        name_if(self.name is Some, "name"@)
            + name_if(self.expires_after is Some, "expires_after"@)
            + name_if(self.metadata is Some, "metadata"@)
    }

    /// The body as JSON text.
    pub fn to_json(&self) -> (r: String)
        ensures
            r@ == object_text(self.spec_members()),
    {
        let w = ObjectWriter::new();
        let w = w.opt_string("name", &self.name);
        let w = w.opt_json("expires_after", &self.expires_after);
        let w = w.opt_json("metadata", &self.metadata);
        assert(w.members() =~= self.spec_members());
        w.finish()
    }

    /// The names of the members of the body are the names of the fields that
    /// are set, and no others.
    pub proof fn lemma_keys(&self)
        ensures
            member_names(self.spec_members()) == self.spec_keys(),
    {
        let m0 = Seq::<Member>::empty();
        let m1 = m0 + maybe("name"@, opt_quoted(self.name.deep_view()));
        let m2 = m1 + maybe("expires_after"@, self.expires_after.deep_view());
        let m3 = m2 + maybe("metadata"@, self.metadata.deep_view());
        lemma_names_maybe(m0, "name"@, opt_quoted(self.name.deep_view()));
        lemma_names_maybe(m1, "expires_after"@, self.expires_after.deep_view());
        lemma_names_maybe(m2, "metadata"@, self.metadata.deep_view());
        assert(m1 =~= maybe("name"@, opt_quoted(self.name.deep_view())));
        assert(m3 == self.spec_members());
        assert(member_names(m0) =~= Seq::<Seq<char>>::empty());
        assert(member_names(m1) =~= name_if(self.name is Some, "name"@));
        assert(member_names(m3) == self.spec_keys());
    }

    /// Whether a field of the name `k` is sent: a field once it is set, and
    /// nothing else.
    pub open spec fn sends(&self, k: Seq<char>) -> bool {
        ||| (self.name is Some && k == "name"@)
        ||| (self.expires_after is Some && k == "expires_after"@)
        ||| (self.metadata is Some && k == "metadata"@)
    }

    /// A name is among the names of the members of the body exactly where a
    /// field of that name is sent.
    pub proof fn lemma_sends(&self, k: Seq<char>)
        ensures
            member_names(self.spec_members()).contains(k) <==> self.sends(k),
    {
        self.lemma_keys();
        let s0 = Seq::<Seq<char>>::empty();
        let s1 = s0 + name_if(self.name is Some, "name"@);
        let s2 = s1 + name_if(self.expires_after is Some, "expires_after"@);
        let s3 = s2 + name_if(self.metadata is Some, "metadata"@);
        lemma_name_if_contains(s0, self.name is Some, "name"@, k);
        lemma_name_if_contains(s1, self.expires_after is Some, "expires_after"@, k);
        lemma_name_if_contains(s2, self.metadata is Some, "metadata"@, k);
        assert(s1 =~= name_if(self.name is Some, "name"@));
        assert(s3 == self.spec_keys());
    }
}

impl<'a> VectorsApi<'a> {
    /// A submission of `request` to create a vector store.
    pub fn create_vector_store(&self, request: VectorStoreCreationRequest) -> (r: Request)
        ensures
            r@ == self.0.spec_request(
                Method::Post,
                "/vector_stores"@,
                BodyView::Json(object_text(request.spec_members())),
            ),
    {
        self.0.post_json("/vector_stores", request.to_json())
    }

    /// A retrieval of the vector stores, narrowed by the parameters that are
    /// given.
    pub fn list_vector_stores(
        &self,
        limit: Option<u64>,
        order: Option<String>,
        after: Option<String>,
        before: Option<String>,
    ) -> (r: Request)
        ensures
            r@ == self.0.spec_request(
                Method::Get,
                "/vector_stores"@ + query_text(
                    maybe_param("limit"@, opt_decimal(limit))
                    + maybe_param("order"@, order.deep_view())
                    + maybe_param("after"@, after.deep_view())
                    + maybe_param("before"@, before.deep_view()),
                ),
                BodyView::Empty,
            ),
    {
        let q = UrlWriter::new("/vector_stores");
        let q = q.opt_unsigned("limit", limit);
        let q = q.opt_string("order", &order);
        let q = q.opt_string("after", &after);
        let q = q.opt_string("before", &before);
        assert(q.params() =~= maybe_param("limit"@, opt_decimal(limit))
            + maybe_param("order"@, order.deep_view())
            + maybe_param("after"@, after.deep_view())
            + maybe_param("before"@, before.deep_view()));
        let url = q.finish();
        self.0.get(url.as_str())
    }

    /// A retrieval of the vector store `vector_store_id`.
    pub fn retrieve_vector_store(&self, vector_store_id: &str) -> (r: Request)
        ensures
            r@ == self.0.spec_request(
                Method::Get,
                "/vector_stores/"@ + vector_store_id@,
                BodyView::Empty,
            ),
    {
        let mut url = String::from_str("/vector_stores/");
        url.append(vector_store_id);
        self.0.get(url.as_str())
    }

    /// A submission of `request` to modify the vector store
    /// `vector_store_id`.
    pub fn modify_vector_store(
        &self,
        vector_store_id: &str,
        request: VectorStoreModificationRequest,
    ) -> (r: Request)
        ensures
            r@ == self.0.spec_request(
                Method::Post,
                "/vector_stores/"@ + vector_store_id@,
                BodyView::Json(object_text(request.spec_members())),
            ),
    {
        let mut url = String::from_str("/vector_stores/");
        url.append(vector_store_id);
        self.0.post_json(url.as_str(), request.to_json())
    }

    /// A deletion of the vector store `vector_store_id`.
    pub fn delete_vector_store(&self, vector_store_id: &str) -> (r: Request)
        ensures
            r@ == self.0.spec_request(
                Method::Delete,
                "/vector_stores/"@ + vector_store_id@,
                BodyView::Empty,
            ),
    {
        let mut url = String::from_str("/vector_stores/");
        url.append(vector_store_id);
        self.0.delete(url.as_str())
    }
}

} // verus!
