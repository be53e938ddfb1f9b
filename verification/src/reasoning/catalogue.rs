//! The model catalogue refresh: the progress it reports at each phase and
//! how its run ends.
use vstd::prelude::*;

use crate::text::{dec_int, owned, push_i64, push_str};

verus! {

/// The run-record key of the catalogue refresh.
pub const CATALOGUE_RUN_SOURCE: &'static str = "_model_catalogue";

/// The provider whose models are fetched.
pub const CATALOGUE_PROVIDER: &'static str = "google";

/// The global secret that holds that provider's API key.
pub const PROVIDER_KEY_SECRET: &'static str = "google_api_key";

/// How one provider's refresh went.
#[derive(Debug, Clone)]
pub struct ProviderProgress {
    pub models_fetched: usize,
    pub error: Option<String>,
}

/// The progress a refresh reports.
#[derive(Debug, Clone)]
pub struct CatalogueProgress {
    pub phase: String,
    pub google: Option<ProviderProgress>,
    pub status_message: String,
}

/// How the refresh's run record is closed.
#[derive(Debug, Clone)]
pub enum CatalogueEnd {
    Complete { items: i32 },
    Fail { message: String },
}

impl CatalogueProgress {
    /// The progress of a refresh that has just started.
    pub fn starting() -> (r: CatalogueProgress)
        ensures
            r.phase@ == "starting"@,
            r.google is None,
            r.status_message@ == "Starting model catalogue refresh"@,
    {
        CatalogueProgress {
            phase: owned("starting"),
            google: None,
            status_message: owned("Starting model catalogue refresh"),
        }
    }

    /// The provider's models are being fetched.
    pub fn fetching(&mut self)
        ensures
            final(self).phase@ == "fetching google"@,
            final(self).google == old(self).google,
            final(self).status_message == old(self).status_message,
    {
        self.phase = owned("fetching google");
    }

    /// No API key is configured: the refresh completes with nothing cached.
    pub fn no_api_key(&mut self) -> (r: CatalogueEnd)
        ensures
            final(self).phase@ == "completed"@,
            final(self).status_message@ == "No Google API key configured"@,
            final(self).google == old(self).google,
            r == (CatalogueEnd::Complete { items: 0 }),
    {
        self.phase = owned("completed");
        self.status_message = owned("No Google API key configured");
        CatalogueEnd::Complete { items: 0 }
    }

    /// Takes the provider's refresh result (the number of models stored, or
    /// the error's message): on success the refresh completes with the
    /// count (`{n} models cached`), on failure it fails with the message.
    pub fn finish(&mut self, result: Result<usize, String>) -> (r: CatalogueEnd)
        ensures
            match result {
                Ok(count) => {
                    &&& final(self).google matches Some(g) && g.models_fetched == count && g.error is None
                    &&& final(self).phase@ == "completed"@
                    &&& final(self).status_message@ == dec_int((count as i32) as int) + " models cached"@
                    &&& r == (CatalogueEnd::Complete { items: count as i32 })
                },
                Err(m) => {
                    &&& final(self).google matches Some(g) && g.models_fetched == 0 && (g.error matches Some(
                        e,
                    ) && e@ == m@)
                    &&& final(self).phase@ == "failed"@
                    &&& final(self).status_message@ == m@
                    &&& r matches CatalogueEnd::Fail { message } && message@ == m@
                },
            },
    {
        match result {
            Ok(count) => {
                let items = count as i32;
                self.google = Some(ProviderProgress { models_fetched: count, error: None });
                self.phase = owned("completed");
                let mut m = String::new();
                push_i64(&mut m, items as i64);
                push_str(&mut m, " models cached");
                proof {
                    assert(Seq::<char>::empty() + dec_int(items as int) =~= dec_int(items as int));
                }
                self.status_message = m;
                CatalogueEnd::Complete { items }
            },
            Err(m) => {
                self.google = Some(ProviderProgress { models_fetched: 0, error: Some(m.clone()) });
                self.phase = owned("failed");
                self.status_message = m.clone();
                CatalogueEnd::Fail { message: m }
            },
        }
    }
}

/// The message of a provider whose models could not be fetched:
/// `{provider}: {error}`.
pub fn fetch_failure_message(provider: &str, error: &str) -> (r: String)
    ensures
        r@ == provider@ + ": "@ + error@,
{
    let mut m = owned(provider);
    push_str(&mut m, ": ");
    push_str(&mut m, error);
    m
}

/// The message of a provider whose models could not be stored:
/// `{provider}: failed to store models: {error}`.
pub fn store_failure_message(provider: &str, error: &str) -> (r: String)
    ensures
        r@ == provider@ + ": failed to store models: "@ + error@,
{
    let mut m = owned(provider);
    push_str(&mut m, ": failed to store models: ");
    push_str(&mut m, error);
    m
}

/// The global setting that records when a provider's models were last
/// refreshed: `ai.models_refreshed.{provider}`.
pub fn refreshed_setting_key(provider: &str) -> (r: String)
    ensures
        r@ == "ai.models_refreshed."@ + provider@,
{
    let mut k = owned("ai.models_refreshed.");
    push_str(&mut k, provider);
    k
}

} // verus!
