//! The requests of the fine-tuning endpoints.

use vstd::prelude::*;
use vstd::string::*;
use crate::json::{json_quoted, JsonNumber};
use crate::openai::OpenAI;
use crate::payload::{
    maybe, object_text, one, opt_array, opt_bool, opt_decimal32, opt_quoted, ObjectWriter,
};
use crate::request::{BodyView, Method, Request};

verus! {

/// The fine-tuning endpoints.
pub struct FineTuningApi<'a>(pub &'a OpenAI);

impl<'a> FineTuningApi<'a> {
    /// A submission of a new fine-tuning job. The model and the training file
    /// are always sent, each other parameter where it is given.
    pub fn create_fine_tuning_job(
        &self,
        model: &str,
        training_file: &str,
        validation_file: Option<&str>,
        n_epochs: Option<u32>,
        batch_size: Option<u32>,
        learning_rate_multiplier: Option<JsonNumber>,
        prompt_loss_weight: Option<JsonNumber>,
        compute_classification_metrics: Option<bool>,
        classification_n_classes: Option<u32>,
        classification_positive_class: Option<&str>,
        classification_betas: Option<Vec<JsonNumber>>,
    ) -> (r: Request)
        ensures
            r@ == self.0.spec_request(
                Method::Post,
                "/fine-tuning/jobs"@,
                BodyView::Json(
                    object_text(
                        one("model"@, json_quoted(model@))
                        + one("training_file"@, json_quoted(training_file@))
                        + maybe("validation_file"@, opt_quoted(validation_file.deep_view()))
                        + maybe("n_epochs"@, opt_decimal32(n_epochs))
                        + maybe("batch_size"@, opt_decimal32(batch_size))
                        + maybe("learning_rate_multiplier"@, learning_rate_multiplier.deep_view())
                        + maybe("prompt_loss_weight"@, prompt_loss_weight.deep_view())
                        + maybe(
                            "compute_classification_metrics"@,
                            opt_bool(compute_classification_metrics),
                        )
                        + maybe(
                            "classification_n_classes"@,
                            opt_decimal32(classification_n_classes),
                        )
                        + maybe(
                            "classification_positive_class"@,
                            opt_quoted(classification_positive_class.deep_view()),
                        )
                        + maybe(
                            "classification_betas"@,
                            opt_array(classification_betas.deep_view()),
                        ),
                    ),
                ),
            ),
    {
        let w = ObjectWriter::new();
        let w = w.string("model", model);
        let w = w.string("training_file", training_file);
        let w = w.opt_str("validation_file", validation_file);
        let w = w.opt_unsigned32("n_epochs", n_epochs);
        let w = w.opt_unsigned32("batch_size", batch_size);
        let w = w.opt_number("learning_rate_multiplier", &learning_rate_multiplier);
        let w = w.opt_number("prompt_loss_weight", &prompt_loss_weight);
        let w = w.opt_bool("compute_classification_metrics", compute_classification_metrics);
        let w = w.opt_unsigned32("classification_n_classes", classification_n_classes);
        let w = w.opt_str("classification_positive_class", classification_positive_class);
        let w = w.opt_number_list("classification_betas", &classification_betas);
        assert(w.members() =~= one("model"@, json_quoted(model@))
            + one("training_file"@, json_quoted(training_file@))
            + maybe("validation_file"@, opt_quoted(validation_file.deep_view()))
            + maybe("n_epochs"@, opt_decimal32(n_epochs))
            + maybe("batch_size"@, opt_decimal32(batch_size))
            + maybe("learning_rate_multiplier"@, learning_rate_multiplier.deep_view())
            + maybe("prompt_loss_weight"@, prompt_loss_weight.deep_view())
            + maybe("compute_classification_metrics"@, opt_bool(compute_classification_metrics))
            + maybe("classification_n_classes"@, opt_decimal32(classification_n_classes))
            + maybe(
                "classification_positive_class"@,
                opt_quoted(classification_positive_class.deep_view()),
            )
            + maybe("classification_betas"@, opt_array(classification_betas.deep_view())));
        self.0.post_json("/fine-tuning/jobs", w.finish())
    }

    /// A retrieval of the fine-tuning jobs.
    pub fn list_fine_tuning_jobs(&self) -> (r: Request)
        ensures
            r@ == self.0.spec_request(
                Method::Get,
                "/fine-tuning/jobs"@,
                BodyView::Empty,
            ),
    {
        self.0.get("/fine-tuning/jobs")
    }

    /// A retrieval of the fine-tuning job `job_id`.
    pub fn retrieve_fine_tuning_job(&self, job_id: &str) -> (r: Request)
        ensures
            r@ == self.0.spec_request(
                Method::Get,
                "/fine-tuning/jobs/"@ + job_id@,
                BodyView::Empty,
            ),
    {
        let mut url = String::from_str("/fine-tuning/jobs/");
        url.append(job_id);
        self.0.get(url.as_str())
    }
}

} // verus!
