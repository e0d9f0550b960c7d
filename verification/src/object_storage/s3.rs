//! The adapter for sources in remote object storage.

use crate::datafusion::context::SaDataFusion;
use crate::error::SaError;
use crate::object_storage::local_storage::spec_stringify;
use crate::object_storage::locator::{remote_bounds, spec_remote_parts, RemoteParts};
use crate::object_storage::storage::{
    FileFormat, SaStorage, StoreClient, StoreClientView, TableHandle, TableHandleView,
};
use crate::schema::{spec_normalize, TableSchema};
use crate::text::str_chars;
use crate::url_root::{spec_url_root, ParsedUrl};
use vstd::prelude::*;
use vstd::string::*;

verus! {

/// The region of a remote store: the configured one, or `us-east-1` where
/// none is configured.
pub open spec fn spec_region_or_default(configured: Option<Seq<char>>) -> Seq<char> {
    match configured {
        Some(region) => region,
        None => "us-east-1"@,
    }
}

/// A source in a bucket of a remote store: the bucket, the key prefix and the
/// file name of its locator, and, once `init_table_provider` has run, the
/// table it is bound to and the client of its store.
#[derive(Debug)]
pub struct SaS3 {
    s3_bucket: String,
    s3_src_key: String,
    s3_file: String,
    file_url: String,
    table_provider: Option<TableHandle>,
    object_store: Option<StoreClient>,
}

impl Default for SaS3 {
    fn default() -> (r: SaS3)
        ensures
            r.spec_bucket() == Seq::<char>::empty(),
            r.spec_src_key() == Seq::<char>::empty(),
            r.spec_file() == Seq::<char>::empty(),
            r.spec_file_url() == Seq::<char>::empty(),
            r.spec_table_provider().is_none(),
            r.spec_object_store().is_none(),
    {
        SaS3 {
            s3_bucket: String::new(),
            s3_src_key: String::new(),
            s3_file: String::new(),
            file_url: String::new(),
            table_provider: None,
            object_store: None,
        }
    }
}

impl SaS3 {
    /// The bucket of the source.
    pub closed spec fn spec_bucket(&self) -> Seq<char> {
        self.s3_bucket@
    }

    /// The key prefix of the source.
    pub closed spec fn spec_src_key(&self) -> Seq<char> {
        self.s3_src_key@
    }

    /// The file name of the source.
    pub closed spec fn spec_file(&self) -> Seq<char> {
        self.s3_file@
    }

    /// The protocol of remote sources.
    pub fn protocal() -> (r: &'static str)
        ensures
            r@ == "s3"@,
    {
        "s3"
    }

    /// The region to use: `configured`, or `us-east-1` where nothing is
    /// configured.
    pub fn region_or_default(configured: Option<&str>) -> (r: String)
        ensures
            r@ == spec_region_or_default(
                match configured {
                    Some(region) => Some(region@),
                    None => None,
                },
            ),
    {
        match configured {
            Some(region) => String::from_str(region),
            None => String::from_str("us-east-1"),
        }
    }

    /// The key prefix of the source.
    pub fn get_s3_src_key(&self) -> (r: String)
        ensures
            r@ == self.spec_src_key(),
    {
        self.s3_src_key.clone()
    }

    /// The file name of the source.
    pub fn get_s3_file(&self) -> (r: String)
        ensures
            r@ == self.spec_file(),
    {
        self.s3_file.clone()
    }

    /// The bucket of the source.
    pub fn get_s3_bucket(&self) -> (r: String)
        ensures
            r@ == self.spec_bucket(),
    {
        self.s3_bucket.clone()
    }

    /// The adapter for the file `s3_file` under the key prefix `s3_src_key` of
    /// the bucket `s3_bucket`. It is not bound yet.
    pub fn new(s3_bucket: &str, s3_src_key: &str, s3_file: &str) -> (r: SaS3)
        ensures
            r.spec_bucket() == s3_bucket@,
            r.spec_src_key() == s3_src_key@,
            r.spec_file() == s3_file@,
            r.spec_file_url() == "s3://"@ + s3_bucket@ + "/"@ + s3_src_key@ + "/"@ + s3_file@,
            r.spec_table_provider().is_none(),
            r.spec_object_store().is_none(),
    {
        let file_url = String::from_str(Self::protocal()).concat("://").concat(s3_bucket).concat(
            "/",
        ).concat(s3_src_key).concat("/").concat(s3_file);
        proof {
            reveal_strlit("s3");
            reveal_strlit("://");
            reveal_strlit("s3://");
            assert("s3"@ + "://"@ =~= "s3://"@);
        }
        SaS3 {
            s3_bucket: String::from_str(s3_bucket),
            s3_src_key: String::from_str(s3_src_key),
            s3_file: String::from_str(s3_file),
            file_url,
            table_provider: None,
            object_store: None,
        }
    }

    /// The adapter for the locator `s3_uri`, which must have the shape
    /// `s3://<bucket>/<key-prefix>/<file-name>`. It is not bound yet.
    pub fn new_from_s3_uri(s3_uri: &str) -> (r: Result<SaS3, SaError>)
        ensures
            match r {
                Ok(s3) => {
                    &&& spec_remote_parts(s3_uri@) == Some(
                        RemoteParts {
                            bucket: s3.spec_bucket(),
                            key_prefix: s3.spec_src_key(),
                            file_name: s3.spec_file(),
                        },
                    )
                    &&& s3.spec_file_url() == s3_uri@
                    &&& s3.spec_table_provider().is_none()
                    &&& s3.spec_object_store().is_none()
                },
                Err(e) => e == SaError::ParseError && spec_remote_parts(s3_uri@).is_none(),
            },
    {
        let t = str_chars(s3_uri);
        match remote_bounds(&t) {
            Some((bucket_end, file_start)) => {
                let prefix_len = str_chars("s3://").len();
                Ok(
                    SaS3 {
                        s3_bucket: String::from_str(s3_uri.substring_char(prefix_len, bucket_end)),
                        s3_src_key: String::from_str(
                            s3_uri.substring_char(bucket_end + 1, file_start - 1),
                        ),
                        s3_file: String::from_str(s3_uri.substring_char(file_start, t.len())),
                        file_url: String::from_str(s3_uri),
                        table_provider: None,
                        object_store: None,
                    },
                )
            },
            None => Err(SaError::ParseError),
        }
    }

    /// Binds the adapter. First the client for the adapter's bucket in
    /// `s3_region` is filed in the session under the root of the locator; a
    /// locator that is not a URL is a parse error and leaves the session as it
    /// was. Then the adapter is bound to a table over its locator, read as
    /// `file_format`. `sampled` is the schema that sampling the source gave.
    /// With `infer_schema` absent or true the table has that schema; with
    /// false every column becomes text and keeps its name and nullability. A
    /// sample without columns is a schema inference error; the client stays
    /// filed.
    pub fn init_table_provider(
        self,
        s3_region: &str,
        sa_datafusion: &mut SaDataFusion,
        file_format: FileFormat,
        infer_schema: Option<bool>,
        sampled: &TableSchema,
    ) -> (r: Result<SaS3, SaError>)
        requires
            old(sa_datafusion).wf(),
        ensures
            final(sa_datafusion).wf(),
            final(sa_datafusion).tables() == old(sa_datafusion).tables(),
            match spec_url_root(self.spec_file_url()) {
                None => {
                    &&& r matches Err(e) && e == SaError::ParseError
                    &&& final(sa_datafusion).object_stores() == old(sa_datafusion).object_stores()
                },
                Some(root) => {
                    &&& final(sa_datafusion).object_stores() == old(
                        sa_datafusion,
                    ).object_stores().insert(
                        root,
                        StoreClientView { region: s3_region@, bucket: self.spec_bucket() },
                    )
                    &&& match r {
                        Ok(bound) => {
                            &&& sampled@.len() > 0
                            &&& bound.spec_bucket() == self.spec_bucket()
                            &&& bound.spec_src_key() == self.spec_src_key()
                            &&& bound.spec_file() == self.spec_file()
                            &&& bound.spec_file_url() == self.spec_file_url()
                            &&& bound.spec_table_provider() == Some(
                                TableHandleView {
                                    file_url: self.spec_file_url(),
                                    file_format,
                                    schema: spec_normalize(sampled@, spec_stringify(infer_schema)),
                                },
                            )
                            &&& bound.spec_object_store() == Some(
                                StoreClientView { region: s3_region@, bucket: self.spec_bucket() },
                            )
                        },
                        Err(e) => e == SaError::SchemaInferenceError && sampled@.len() == 0,
                    }
                },
            },
    {
        let url = match ParsedUrl::parse(self.file_url.as_str()) {
            Ok(url) => url,
            Err(e) => {
                return Err(e);
            },
        };
        let client = StoreClient::new(s3_region, self.s3_bucket.as_str());
        sa_datafusion.register_object_store(&url, client.clone());
        if sampled.is_empty() {
            return Err(SaError::SchemaInferenceError);
        }
        let stringify = match infer_schema {
            Some(infer) => !infer,
            None => false,
        };
        let schema = sampled.normalize(stringify);
        let table = TableHandle::new(self.file_url.as_str(), file_format, schema);
        Ok(
            SaS3 {
                s3_bucket: self.s3_bucket,
                s3_src_key: self.s3_src_key,
                s3_file: self.s3_file,
                file_url: self.file_url,
                table_provider: Some(table),
                object_store: Some(client),
            },
        )
    }
}

impl Clone for SaS3 {
    fn clone(&self) -> (r: SaS3)
        ensures
            r.spec_bucket() == self.spec_bucket(),
            r.spec_src_key() == self.spec_src_key(),
            r.spec_file() == self.spec_file(),
            r.spec_file_url() == self.spec_file_url(),
            r.spec_table_provider() == self.spec_table_provider(),
            r.spec_object_store() == self.spec_object_store(),
    {
        SaS3 {
            s3_bucket: self.s3_bucket.clone(),
            s3_src_key: self.s3_src_key.clone(),
            s3_file: self.s3_file.clone(),
            file_url: self.file_url.clone(),
            table_provider: match &self.table_provider {
                Some(t) => Some(t.clone()),
                None => None,
            },
            object_store: match &self.object_store {
                Some(c) => Some(c.clone()),
                None => None,
            },
        }
    }
}

impl SaStorage for SaS3 {
    open spec fn spec_protocal(&self) -> Seq<char> {
        "s3"@
    }

    closed spec fn spec_file_url(&self) -> Seq<char> {
        self.file_url@
    }

    closed spec fn spec_table_provider(&self) -> Option<TableHandleView> {
        match self.table_provider {
            Some(t) => Some(t@),
            None => None,
        }
    }

    closed spec fn spec_object_store(&self) -> Option<StoreClientView> {
        match self.object_store {
            Some(c) => Some(c@),
            None => None,
        }
    }

    fn get_protocal(&self) -> (r: String) {
        String::from_str(Self::protocal())
    }

    fn get_table_provider(&self) -> (r: Option<TableHandle>) {
        match &self.table_provider {
            Some(t) => Some(t.clone()),
            None => None,
        }
    }

    fn get_file_url(&self) -> (r: String) {
        self.file_url.clone()
    }

    fn get_object_store(&self) -> (r: Option<StoreClient>) {
        match &self.object_store {
            Some(c) => Some(c.clone()),
            None => None,
        }
    }
}

} // verus!
