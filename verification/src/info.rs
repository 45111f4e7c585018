//! Extract node information out of administrative command replies.
use vstd::prelude::*;

use crate::client::CommandError;
use crate::document::Document;
use crate::errors::MongoInfoError;

verus! {

/// Lookup the current feature compatibility version (FCV) in the outcome of
/// the get-parameter command.
pub fn feature_compatibility_version(result: &Result<Document, CommandError>) -> (version: Result<
    String,
    MongoInfoError,
>)
    ensures
        match result {
            Err(_) => version == Err::<String, MongoInfoError>(
                MongoInfoError::FeatCompatVerUnknown,
            ),
            Ok(params) => match params.spec_get_document("featureCompatibilityVersion"@) {
                Err(_) => version == Err::<String, MongoInfoError>(
                    MongoInfoError::FeatCompatVerUnknown,
                ),
                Ok(fcv) => match fcv.spec_get_text("version"@) {
                    Err(_) => version == Err::<String, MongoInfoError>(
                        MongoInfoError::FeatCompatVerNotSet,
                    ),
                    Ok(value) => version == Ok::<String, MongoInfoError>(value),
                },
            },
        },
{
    let params = match result {
        Ok(params) => params,
        Err(_) => {
            return Err(MongoInfoError::FeatCompatVerUnknown);
        },
    };
    let fcv = match params.get_document("featureCompatibilityVersion") {
        Ok(fcv) => fcv,
        Err(_) => {
            return Err(MongoInfoError::FeatCompatVerUnknown);
        },
    };
    match fcv.get_str("version") {
        Ok(value) => Ok(value.clone()),
        Err(_) => Err(MongoInfoError::FeatCompatVerNotSet),
    }
}

/// Lookup the oplog collection's maximum size in the outcome of the
/// collection-stats command.
pub fn oplog_size(result: &Result<Document, CommandError>) -> (size: Result<i32, MongoInfoError>)
    ensures
        match result {
            Err(_) => size == Err::<i32, MongoInfoError>(MongoInfoError::OplogStatsUnknown),
            Ok(stats) => match stats.spec_get_i32("maxSize"@) {
                Err(_) => size == Err::<i32, MongoInfoError>(MongoInfoError::OplogStatsNoSize),
                Ok(value) => size == Ok::<i32, MongoInfoError>(value),
            },
        },
{
    let stats = match result {
        Ok(stats) => stats,
        Err(_) => {
            return Err(MongoInfoError::OplogStatsUnknown);
        },
    };
    match stats.get_i32("maxSize") {
        Ok(value) => Ok(value),
        Err(_) => Err(MongoInfoError::OplogStatsNoSize),
    }
}

/// Lookup the replica set name (the cluster id) in the outcome of the
/// replica-status command.
pub fn set_name(result: &Result<Document, CommandError>) -> (name: Result<String, MongoInfoError>)
    ensures
        match result {
            Err(_) => name == Err::<String, MongoInfoError>(
                MongoInfoError::ReplicaSetStatusUnknown,
            ),
            Ok(status) => match status.spec_get_text("set"@) {
                Err(_) => name == Err::<String, MongoInfoError>(
                    MongoInfoError::ReplicaSetStatusNoName,
                ),
                Ok(value) => name == Ok::<String, MongoInfoError>(value),
            },
        },
{
    let status = match result {
        Ok(status) => status,
        Err(_) => {
            return Err(MongoInfoError::ReplicaSetStatusUnknown);
        },
    };
    match status.get_str("set") {
        Ok(value) => Ok(value.clone()),
        Err(_) => Err(MongoInfoError::ReplicaSetStatusNoName),
    }
}

} // verus!
