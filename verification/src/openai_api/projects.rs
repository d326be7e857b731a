//! The requests of the project endpoints of an organization.

use vstd::prelude::*;
use vstd::string::*;
use crate::json::json_quoted;
use crate::openai::OpenAI;
use crate::payload::{maybe, object_text, one, opt_bool, opt_quoted, ObjectWriter};
use crate::request::{BodyView, Method, Request};
use crate::util::{maybe_param, opt_decimal8, query_text, UrlWriter};

verus! {

/// The project endpoints of an organization: projects and their users.
pub struct ProjectsApi<'a>(pub &'a OpenAI);

impl<'a> ProjectsApi<'a> {
    /// A retrieval of the projects of the organization, narrowed by the
    /// parameters that are given.
    pub fn list_projects(
        &self,
        limit: Option<u8>,
        after: Option<&str>,
        include_archived: Option<bool>,
    ) -> (r: Request)
        ensures
            r@ == self.0.spec_request(
                Method::Get,
                "/organization/projects"@ + query_text(
                    maybe_param("limit"@, opt_decimal8(limit))
                    + maybe_param("after"@, after.deep_view())
                    + maybe_param("include_archived"@, opt_bool(include_archived)),
                ),
                BodyView::Empty,
            ),
    {
        let q = UrlWriter::new("/organization/projects");
        let q = q.opt_unsigned8("limit", limit);
        let q = q.opt_str("after", after);
        let q = q.opt_bool("include_archived", include_archived);
        assert(q.params() =~= maybe_param("limit"@, opt_decimal8(limit))
            + maybe_param("after"@, after.deep_view())
            + maybe_param("include_archived"@, opt_bool(include_archived)));
        let url = q.finish();
        self.0.get(url.as_str())
    }

    /// A submission of a new project. The name is always sent, the use case
    /// and the website where they are given.
    pub fn create_project(
        &self,
        name: &str,
        app_use_case: Option<&str>,
        business_website: Option<&str>,
    ) -> (r: Request)
        ensures
            r@ == self.0.spec_request(
                Method::Post,
                "/organization/projects"@,
                BodyView::Json(
                    object_text(
                        one("name"@, json_quoted(name@))
                        + maybe("app_use_case"@, opt_quoted(app_use_case.deep_view()))
                        + maybe("business_website"@, opt_quoted(business_website.deep_view())),
                    ),
                ),
            ),
    {
        let w = ObjectWriter::new();
        let w = w.string("name", name);
        let w = w.opt_str("app_use_case", app_use_case);
        let w = w.opt_str("business_website", business_website);
        assert(w.members() =~= one("name"@, json_quoted(name@))
            + maybe("app_use_case"@, opt_quoted(app_use_case.deep_view()))
            + maybe("business_website"@, opt_quoted(business_website.deep_view())));
        self.0.post_json("/organization/projects", w.finish())
    }

    /// A retrieval of the project `project_id`.
    pub fn retrieve_project(&self, project_id: &str) -> (r: Request)
        ensures
            r@ == self.0.spec_request(
                Method::Get,
                "/organization/projects/"@ + project_id@,
                BodyView::Empty,
            ),
    {
        let mut url = String::from_str("/organization/projects/");
        url.append(project_id);
        self.0.get(url.as_str())
    }

    /// A submission of new details for the project `project_id`. The name is
    /// always sent, the use case and the website where they are given.
    pub fn modify_project(
        &self,
        project_id: &str,
        name: &str,
        app_use_case: Option<&str>,
        business_website: Option<&str>,
    ) -> (r: Request)
        ensures
            r@ == self.0.spec_request(
                Method::Post,
                "/organization/projects/"@ + project_id@,
                BodyView::Json(
                    object_text(
                        one("name"@, json_quoted(name@))
                        + maybe("app_use_case"@, opt_quoted(app_use_case.deep_view()))
                        + maybe("business_website"@, opt_quoted(business_website.deep_view())),
                    ),
                ),
            ),
    {
        let mut url = String::from_str("/organization/projects/");
        url.append(project_id);
        let w = ObjectWriter::new();
        let w = w.string("name", name);
        let w = w.opt_str("app_use_case", app_use_case);
        let w = w.opt_str("business_website", business_website);
        assert(w.members() =~= one("name"@, json_quoted(name@))
            + maybe("app_use_case"@, opt_quoted(app_use_case.deep_view()))
            + maybe("business_website"@, opt_quoted(business_website.deep_view())));
        self.0.post_json(url.as_str(), w.finish())
    }

    /// A submission of an empty object to archive the project `project_id`.
    pub fn archive_project(&self, project_id: &str) -> (r: Request)
        ensures
            r@ == self.0.spec_request(
                Method::Post,
                "/organization/projects/"@ + project_id@ + "/archive"@,
                BodyView::Json(object_text(Seq::empty())),
            ),
    {
        let mut url = String::from_str("/organization/projects/");
        url.append(project_id);
        url.append("/archive");
        self.0.post_json(url.as_str(), ObjectWriter::new().finish())
    }

    /// A retrieval of the users of the project `project_id`, narrowed by the
    /// parameters that are given.
    pub fn list_project_users(
        &self,
        project_id: &str,
        limit: Option<u8>,
        after: Option<&str>,
    ) -> (r: Request)
        ensures
            r@ == self.0.spec_request(
                Method::Get,
                "/organization/projects/"@ + project_id@ + "/users"@ + query_text(
                    maybe_param("limit"@, opt_decimal8(limit))
                    + maybe_param("after"@, after.deep_view()),
                ),
                BodyView::Empty,
            ),
    {
        let mut url = String::from_str("/organization/projects/");
        url.append(project_id);
        url.append("/users");
        let q = UrlWriter::new(url.as_str());
        let q = q.opt_unsigned8("limit", limit);
        let q = q.opt_str("after", after);
        assert(q.params() =~= maybe_param("limit"@, opt_decimal8(limit))
            + maybe_param("after"@, after.deep_view()));
        let url = q.finish();
        self.0.get(url.as_str())
    }

    /// A submission of the user `user_id` to be added to the project
    /// `project_id` in the role `role`.
    pub fn create_project_user(&self, project_id: &str, user_id: &str, role: &str) -> (r: Request)
        ensures
            r@ == self.0.spec_request(
                Method::Post,
                "/organization/projects/"@ + project_id@ + "/users"@,
                BodyView::Json(
                    object_text(
                        one("user_id"@, json_quoted(user_id@))
                        + one("role"@, json_quoted(role@)),
                    ),
                ),
            ),
    {
        let mut url = String::from_str("/organization/projects/");
        url.append(project_id);
        url.append("/users");
        let w = ObjectWriter::new();
        let w = w.string("user_id", user_id);
        let w = w.string("role", role);
        assert(w.members() =~= one("user_id"@, json_quoted(user_id@))
            + one("role"@, json_quoted(role@)));
        self.0.post_json(url.as_str(), w.finish())
    }

    /// A retrieval of the user `user_id` of the project `project_id`.
    pub fn retrieve_project_user(&self, project_id: &str, user_id: &str) -> (r: Request)
        ensures
            r@ == self.0.spec_request(
                Method::Get,
                "/organization/projects/"@ + project_id@ + "/users/"@ + user_id@,
                BodyView::Empty,
            ),
    {
        let mut url = String::from_str("/organization/projects/");
        url.append(project_id);
        url.append("/users/");
        url.append(user_id);
        self.0.get(url.as_str())
    }

    /// A submission of the new role `role` for the user `user_id` of the
    /// project `project_id`.
    pub fn modify_project_user(&self, project_id: &str, user_id: &str, role: &str) -> (r: Request)
        ensures
            r@ == self.0.spec_request(
                Method::Post,
                "/organization/projects/"@ + project_id@ + "/users/"@ + user_id@,
                BodyView::Json(
                    object_text(
                        one("role"@, json_quoted(role@)),
                    ),
                ),
            ),
    {
        let mut url = String::from_str("/organization/projects/");
        url.append(project_id);
        url.append("/users/");
        url.append(user_id);
        let w = ObjectWriter::new();
        let w = w.string("role", role);
        assert(w.members() =~= one("role"@, json_quoted(role@)));
        self.0.post_json(url.as_str(), w.finish())
    }

    /// A deletion of the user `user_id` from the project `project_id`.
    pub fn delete_project_user(&self, project_id: &str, user_id: &str) -> (r: Request)
        ensures
            r@ == self.0.spec_request(
                Method::Delete,
                "/organization/projects/"@ + project_id@ + "/users/"@ + user_id@,
                BodyView::Empty,
            ),
    {
        let mut url = String::from_str("/organization/projects/");
        url.append(project_id);
        url.append("/users/");
        url.append(user_id);
        self.0.delete(url.as_str())
    }
}

} // verus!
