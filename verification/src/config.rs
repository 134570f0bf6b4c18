//! The configuration that callers and workers share.
use std::time::Duration;

use vstd::prelude::*;

use crate::document::string_view;
use crate::time::duration_nanos;

verus! {

/// `From<&str> for String`: the same characters.
pub assume_specification<'_0>[ <String as From<&str>>::from ](text: &str) -> (string: String)
    ensures
        string@ == text@,
;

/// Configuration shared by callers and workers.
#[derive(Debug)]
pub struct Config {
    /// The deployment that stores the tasks.
    pub mongo_uri: String,
    /// The database that holds the collection.
    pub database: String,
    /// The collection that holds the tasks, all of one type.
    pub collection: String,
    /// How long a caller waits for a response; `None` waits forever.
    pub request_timeout: Option<Duration>,
    /// How long after its last heartbeat a task may be taken over.
    pub worker_switch_timeout: Duration,
    /// Whether the id of a finished task may be used again.
    pub allow_reset_finished_tasks: bool,
    /// The worker's name; `None` has one made up.
    pub worker_id: Option<String>,
    /// Whether workers and clients record metrics.
    pub enable_metrics: bool,
    /// The direction in which claims are sorted by creation time, if they are sorted.
    pub claim_sort: Option<i32>,
}

impl Clone for Config {
    /// The same configuration.
    fn clone(&self) -> (config: Config)
        ensures
            config == *self,
    {
        Config {
            mongo_uri: self.mongo_uri.clone(),
            database: self.database.clone(),
            collection: self.collection.clone(),
            request_timeout: self.request_timeout,
            worker_switch_timeout: self.worker_switch_timeout,
            allow_reset_finished_tasks: self.allow_reset_finished_tasks,
            worker_id: match &self.worker_id {
                Some(worker_id) => Some(worker_id.clone()),
                None => None,
            },
            enable_metrics: self.enable_metrics,
            claim_sort: self.claim_sort,
        }
    }
}

impl Config {
    /// Starts a configuration with nothing set.
    pub fn builder() -> (builder: ConfigBuilder)
        ensures
            builder@ == no_settings(),
    {
        ConfigBuilder::default()
    }
}

/// Collects settings for a `Config`.
#[derive(Debug)]
pub struct ConfigBuilder {
    mongo_uri: Option<String>,
    database: Option<String>,
    collection: Option<String>,
    request_timeout: Option<Option<Duration>>,
    worker_switch_timeout: Option<Duration>,
    reset_finished_to_pending: bool,
}

/// The settings made so far.
pub ghost struct Settings {
    pub mongo_uri: Option<Seq<char>>,
    pub database: Option<Seq<char>>,
    pub collection: Option<Seq<char>>,
    pub request_timeout: Option<Option<Duration>>,
    pub worker_switch_timeout: Option<Duration>,
    pub reset_finished_tasks: bool,
}

/// Nothing set yet.
pub open spec fn no_settings() -> Settings {
    Settings {
        mongo_uri: None,
        database: None,
        collection: None,
        request_timeout: None,
        worker_switch_timeout: None,
        reset_finished_tasks: false,
    }
}

impl View for ConfigBuilder {
    type V = Settings;

    closed spec fn view(&self) -> Settings {
        Settings {
            mongo_uri: string_view(self.mongo_uri),
            database: string_view(self.database),
            collection: string_view(self.collection),
            request_timeout: self.request_timeout,
            worker_switch_timeout: self.worker_switch_timeout,
            reset_finished_tasks: self.reset_finished_to_pending,
        }
    }
}

impl Default for ConfigBuilder {
    /// Nothing set yet.
    fn default() -> (builder: ConfigBuilder)
        ensures
            builder@ == no_settings(),
    {
        ConfigBuilder {
            mongo_uri: None,
            database: None,
            collection: None,
            request_timeout: None,
            worker_switch_timeout: None,
            reset_finished_to_pending: false,
        }
    }
}

/// Whether `text` is what `value` converts into.
pub open spec fn converts<T: Into<String>>(value: T, text: String) -> bool {
    call_ensures(<T as Into<String>>::into, (value,), text)
}

impl ConfigBuilder {
    /// Sets the deployment that stores the tasks.
    pub fn mongo_uri<T: Into<String>>(self, uri: T) -> (builder: ConfigBuilder)
        ensures
            exists|text: String| #[trigger]
                converts(uri, text) && builder@ == (Settings { mongo_uri: Some(text@), ..self@ }),
    {
        let mut builder = self;
        let text: String = uri.into();
        assert(converts(uri, text));
        builder.mongo_uri = Some(text);
        builder
    }

    /// Sets the database. Defaults to `getitdone`.
    pub fn database<T: Into<String>>(self, db: T) -> (builder: ConfigBuilder)
        ensures
            exists|text: String| #[trigger]
                converts(db, text) && builder@ == (Settings { database: Some(text@), ..self@ }),
    {
        let mut builder = self;
        let text: String = db.into();
        assert(converts(db, text));
        builder.database = Some(text);
        builder
    }

    /// Sets the collection. Defaults to `tasks`.
    pub fn collection<T: Into<String>>(self, name: T) -> (builder: ConfigBuilder)
        ensures
            exists|text: String| #[trigger]
                converts(name, text) && builder@ == (Settings {
                    collection: Some(text@),
                    ..self@
                }),
    {
        let mut builder = self;
        let text: String = name.into();
        assert(converts(name, text));
        builder.collection = Some(text);
        builder
    }

    /// Sets how long a caller waits. Defaults to `None`, which waits forever.
    pub fn request_timeout(self, timeout: Option<Duration>) -> (builder: ConfigBuilder)
        ensures
            builder@ == (Settings { request_timeout: Some(timeout), ..self@ }),
    {
        let mut builder = self;
        builder.request_timeout = Some(timeout);
        builder
    }

    /// Sets how long after its last heartbeat a task may be taken over. Defaults to 10 seconds.
    pub fn worker_switch_timeout(self, timeout: Duration) -> (builder: ConfigBuilder)
        ensures
            builder@ == (Settings { worker_switch_timeout: Some(timeout), ..self@ }),
    {
        let mut builder = self;
        builder.worker_switch_timeout = Some(timeout);
        builder
    }

    /// Sets whether the id of a finished task may be used again. Defaults to `false`.
    pub fn reset_finished_tasks(self, enable: bool) -> (builder: ConfigBuilder)
        ensures
            builder@ == (Settings { reset_finished_tasks: enable, ..self@ }),
    {
        let mut builder = self;
        builder.reset_finished_to_pending = enable;
        builder
    }

    /// The configuration with these settings. The deployment must have been set.
    pub fn build(self) -> (config: Config)
        requires
            self@.mongo_uri is Some,
        ensures
            self@.makes(config),
    {
        self.finalize()
    }

    /// The configuration with these settings, defaults where nothing was set.
    pub fn finalize(self) -> (config: Config)
        requires
            self@.mongo_uri is Some,
        ensures
            self@.makes(config),
    {
        let mongo_uri = self.mongo_uri.expect("Config::mongo_uri must be provided");
        Config {
            mongo_uri,
            database: match self.database {
                Some(database) => database,
                None => String::from("getitdone"),
            },
            collection: match self.collection {
                Some(collection) => collection,
                None => String::from("tasks"),
            },
            request_timeout: match self.request_timeout {
                Some(timeout) => timeout,
                None => None,
            },
            worker_switch_timeout: match self.worker_switch_timeout {
                Some(timeout) => timeout,
                None => Duration::from_secs(10),
            },
            allow_reset_finished_tasks: self.reset_finished_to_pending,
            worker_id: None,
            enable_metrics: false,
            claim_sort: None,
        }
    }
}

impl Settings {
    /// Whether `config` is the configuration with these settings.
    pub open spec fn makes(self, config: Config) -> bool {
        &&& self.mongo_uri == Some(config.mongo_uri@)
        &&& config.database@ == match self.database {
            Some(database) => database,
            None => "getitdone"@,
        }
        &&& config.collection@ == match self.collection {
            Some(collection) => collection,
            None => "tasks"@,
        }
        &&& config.request_timeout == match self.request_timeout {
            Some(timeout) => timeout,
            None => None,
        }
        &&& match self.worker_switch_timeout {
            Some(timeout) => config.worker_switch_timeout == timeout,
            None => duration_nanos(config.worker_switch_timeout) == 10_000_000_000,
        }
        &&& config.allow_reset_finished_tasks == self.reset_finished_tasks
        &&& config.worker_id is None
        &&& !config.enable_metrics
        &&& config.claim_sort is None
    }
}

} // verus!
