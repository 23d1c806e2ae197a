//! Configuration and start-up: what the process has to know before it serves,
//! and the handle that stands for a service that may serve.

use vstd::prelude::*;

verus! {

/// Name of the collection that is searched when nothing else is configured.
pub open spec fn default_collection() -> Seq<char> {
    "Testing"@
}

/// Name of the query string parameter that holds the search text when nothing
/// else is configured.
pub open spec fn default_parameter() -> Seq<char> {
    "sports"@
}

/// Largest number of matches asked of the vector store when nothing else is
/// configured.
pub const DEFAULT_LIMIT: u64 = 5;

/// Why the process cannot serve.
#[derive(Debug, Clone, Copy, PartialEq, Eq, Structural)]
pub enum StartupError {
    /// The API key of the embedding provider is not set.
    MissingApiKey,
    /// The address of the vector store is not set.
    MissingStoreUri,
    /// The limit of a search is zero.
    ZeroLimit,
    /// The vector store has no collection of the configured name.
    CollectionNotFound,
}

/// The configuration of the process, as plain values.
#[derive(Debug, PartialEq, Eq)]
pub struct Config {
    /// API key of the embedding provider.
    pub api_key: String,
    /// Address of the vector store.
    pub store_uri: String,
    /// API key of the vector store, where it asks for one.
    pub store_api_key: Option<String>,
    /// Name of the collection that is searched.
    pub collection: String,
    /// Name of the query string parameter that holds the search text.
    pub parameter: String,
    /// Largest number of matches asked of the vector store.
    pub limit: u64,
}

/// The mathematical model of a [`Config`].
pub struct ConfigView {
    pub api_key: Seq<char>,
    pub store_uri: Seq<char>,
    pub store_api_key: Option<Seq<char>>,
    pub collection: Seq<char>,
    pub parameter: Seq<char>,
    pub limit: u64,
}

impl View for Config {
    type V = ConfigView;

    open spec fn view(&self) -> ConfigView {
        ConfigView {
            api_key: self.api_key@,
            store_uri: self.store_uri@,
            store_api_key: self.store_api_key.deep_view(),
            collection: self.collection@,
            parameter: self.parameter@,
            limit: self.limit,
        }
    }
}

/// The configuration that the environment gives: both the provider's key and
/// the store's address have to be set, the store's key need not be. The key is
/// looked at first.
pub open spec fn environment_config(
    api_key: Option<Seq<char>>,
    store_uri: Option<Seq<char>>,
    store_api_key: Option<Seq<char>>,
) -> Result<ConfigView, StartupError> {
    match (api_key, store_uri) {
        (None, _) => Err(StartupError::MissingApiKey),
        (Some(_), None) => Err(StartupError::MissingStoreUri),
        (Some(api_key), Some(store_uri)) => Ok(
            ConfigView {
                api_key,
                store_uri,
                store_api_key,
                collection: default_collection(),
                parameter: default_parameter(),
                limit: DEFAULT_LIMIT,
            },
        ),
    }
}

impl Config {
    /// The configuration for the values found in the environment, each `None`
    /// where the variable is not set. Collection, parameter and limit get their
    /// defaults.
    pub fn from_environment(
        api_key: Option<String>,
        store_uri: Option<String>,
        store_api_key: Option<String>,
    ) -> (result: Result<Config, StartupError>)
        ensures
            match result {
                Ok(config) => environment_config(
                    api_key.deep_view(),
                    store_uri.deep_view(),
                    store_api_key.deep_view(),
                ) == Ok::<ConfigView, StartupError>(config@),
                Err(error) => environment_config(
                    api_key.deep_view(),
                    store_uri.deep_view(),
                    store_api_key.deep_view(),
                ) == Err::<ConfigView, StartupError>(error),
            },
    {
        match api_key {
            None => Err(StartupError::MissingApiKey),
            Some(api_key) => match store_uri {
                None => Err(StartupError::MissingStoreUri),
                Some(store_uri) => Ok(
                    Config {
                        api_key,
                        store_uri,
                        store_api_key,
                        collection: "Testing".to_owned(),
                        parameter: "sports".to_owned(),
                        limit: DEFAULT_LIMIT,
                    },
                ),
            },
        }
    }
}

/// A service that may serve: its configuration has a positive limit and its
/// collection was found in the vector store. There is no other way to one than
/// [`Service::start`], and no request is handled without one.
#[derive(Debug, PartialEq, Eq)]
pub struct Service {
    api_key: String,
    collection: String,
    parameter: String,
    limit: u64,
}

/// The mathematical model of a [`Service`].
pub struct ServiceView {
    pub api_key: Seq<char>,
    pub collection: Seq<char>,
    pub parameter: Seq<char>,
    pub limit: u64,
}

impl ServiceView {
    /// Whether the model is that of a service: the limit is positive.
    pub open spec fn wf(self) -> bool {
        self.limit >= 1
    }
}

impl View for Service {
    type V = ServiceView;

    closed spec fn view(&self) -> ServiceView {
        ServiceView {
            api_key: self.api_key@,
            collection: self.collection@,
            parameter: self.parameter@,
            limit: self.limit,
        }
    }
}

/// The part of a configuration that a service keeps.
pub open spec fn service_of(config: ConfigView) -> ServiceView {
    ServiceView {
        api_key: config.api_key,
        collection: config.collection,
        parameter: config.parameter,
        limit: config.limit,
    }
}

/// The outcome of start-up: the service, unless the limit is zero or the
/// collection is not there. The limit is looked at first.
pub open spec fn startup(config: ConfigView, collection_exists: bool) -> Result<
    ServiceView,
    StartupError,
> {
    if config.limit == 0 {
        Err(StartupError::ZeroLimit)
    } else if !collection_exists {
        Err(StartupError::CollectionNotFound)
    } else {
        Ok(service_of(config))
    }
}

impl Service {
    #[verifier::type_invariant]
    spec fn positive_limit(self) -> bool {
        self.limit >= 1
    }

    /// Starts the service for `config`, given whether the vector store has the
    /// configured collection. Without the collection there is no service.
    pub fn start(config: Config, collection_exists: bool) -> (result: Result<Service, StartupError>)
        ensures
            match result {
                Ok(service) => startup(config@, collection_exists) == Ok::<
                    ServiceView,
                    StartupError,
                >(service@) && service@.wf(),
                Err(error) => startup(config@, collection_exists) == Err::<
                    ServiceView,
                    StartupError,
                >(error),
            },
            !collection_exists ==> result is Err,
    {
        if config.limit == 0 {
            Err(StartupError::ZeroLimit)
        } else if !collection_exists {
            Err(StartupError::CollectionNotFound)
        } else {
            Ok(
                Service {
                    api_key: config.api_key,
                    collection: config.collection,
                    parameter: config.parameter,
                    limit: config.limit,
                },
            )
        }
    }

    /// The API key of the embedding provider.
    pub fn api_key(&self) -> (key: &String)
        ensures
            key@ == self@.api_key,
    {
        &self.api_key
    }

    /// The name of the collection that is searched.
    pub fn collection(&self) -> (name: &String)
        ensures
            name@ == self@.collection,
    {
        &self.collection
    }

    /// The name of the query string parameter that holds the search text.
    pub fn parameter(&self) -> (name: &String)
        ensures
            name@ == self@.parameter,
    {
        &self.parameter
    }

    /// The largest number of matches asked of the vector store. It is positive.
    pub fn limit(&self) -> (limit: u64)
        ensures
            limit == self@.limit,
            limit >= 1,
    {
        proof {
            use_type_invariant(self);
        }
        self.limit
    }
}

} // verus!
