//! The collecting response handler: it runs the processors on each
//! response and hands the document to an upload task.

use vstd::prelude::*;

use crate::flow::Flow;
use crate::json::{json_array, to_json_array};
use crate::pipeline::Reverse;
use crate::processor::{extraction, Processor};
use crate::response::Response;
use crate::text::{join, trim_end_slashes, trim_slashes};
use crate::uri::Uri;

verus! {

/// The `data` of a document: absent, explicitly null, or a value.
#[derive(Clone, Debug, PartialEq)]
pub enum DocumentData {
    Absent,
    Null,
    Present(serde_json::Value),
}

/// A document for the collection endpoint.
#[derive(Clone, Debug, PartialEq)]
pub struct CreateDocument {
    pub folder: String,
    pub data: DocumentData,
}

impl CreateDocument {
    pub fn new(folder: String) -> (r: CreateDocument)
        ensures
            r.folder == folder,
            r.data == DocumentData::Absent,
    {
        CreateDocument { folder, data: DocumentData::Absent }
    }
}

/// What each processor extracts from `resp`, in processor order; processors
/// whose hostname does not match give nothing.
pub open spec fn extracted(processors: Seq<Processor>, resp: Response) -> Seq<serde_json::Value>
    decreases processors.len(),
{
    if processors.len() == 0 {
        seq![]
    } else {
        let p = processors.last();
        let earlier = extracted(processors.drop_last(), resp);
        match extraction(p.spec.rules@, p.metadata.hostname, resp) {
            Some(v) => earlier.push(v),
            None => earlier,
        }
    }
}

pub open spec fn temp_folder() -> Seq<char> {
    seq!['t', 'e', 'm', 'p']
}

pub open spec fn documents_path() -> Seq<char> {
    seq!['/', 'a', 'p', 'i', '/', 'd', 'o', 'c', 'u', 'm', 'e', 'n', 't', 's']
}

/// An upload for the background task: `POST` the documents as JSON to
/// `url` with `Authorization: Bearer <token>`.
#[derive(Clone, Debug, PartialEq)]
pub struct Upload {
    pub url: String,
    pub token: String,
    pub documents: Vec<CreateDocument>,
}

/// Collects documents from responses and uploads them.
#[derive(Debug)]
pub struct Collector {
    /// Base of the collection endpoint; nothing is uploaded without one.
    pub upload_to: Option<Uri>,
    pub processors: Vec<Processor>,
}

impl Collector {
    pub fn new(upload_to: Option<Uri>, processors: Vec<Processor>) -> (r: Collector)
        ensures
            r.upload_to == upload_to,
            r.processors == processors,
    {
        Collector { upload_to, processors }
    }

    /// The document for one response: folder `temp`, and as data the array
    /// of what each processor extracted.
    pub fn process(&self, resp: &Response) -> (r: CreateDocument)
        ensures
            r.folder@ == temp_folder(),
            r.data == DocumentData::Present(json_array(extracted(self.processors@, *resp))),
    {
        let mut documents: Vec<serde_json::Value> = Vec::new();
        let mut i: usize = 0;
        while i < self.processors.len()
            invariant
                i <= self.processors@.len(),
                documents@ == extracted(self.processors@.subrange(0, i as int), *resp),
            decreases self.processors@.len() - i,
        {
            proof {
                assert(self.processors@.subrange(0, i + 1).drop_last() =~= self.processors@.subrange(0, i as int));
            }
            match self.processors[i].process(resp) {
                Some(document) => documents.push(document),
                None => {},
            }
            i = i + 1;
        }
        proof {
            assert(self.processors@.subrange(0, self.processors@.len() as int) =~= self.processors@);
            reveal_strlit("temp");
        }
        let folder = "temp";
        proof {
            assert(folder@ =~= temp_folder());
        }
        CreateDocument { folder: folder.to_string(), data: DocumentData::Present(to_json_array(documents)) }
    }

    /// Handles a response: it goes on unchanged, and where an endpoint is
    /// configured and the flow was authenticated, its document is to be
    /// uploaded with the flow's credential as bearer token.
    pub fn on_response<P>(&self, flow: &Flow<P>, resp: &Response) -> (r: (Reverse, Option<Upload>))
        ensures
            r.0 is DoNothing,
            match (self.upload_to, flow.auth_view()) {
                (Some(u), Some(c)) => r.1 matches Some(up) && {
                    &&& up.url@ == trim_slashes(u.text@) + documents_path()
                    &&& up.token@ == c.credentials_view()
                    &&& up.documents@.len() == 1
                    &&& up.documents@[0].folder@ == temp_folder()
                    &&& up.documents@[0].data == DocumentData::Present(json_array(extracted(self.processors@, *resp)))
                },
                _ => r.1 is None,
            },
    {
        let upload = match (&self.upload_to, flow.auth()) {
            (Some(u), Some(credentials)) => {
                proof {
                    reveal_strlit("/api/documents");
                }
                let url = join(trim_end_slashes(u.as_str()), "/api/documents");
                let document = self.process(resp);
                let mut documents: Vec<CreateDocument> = Vec::new();
                documents.push(document);
                Some(Upload { url, token: credentials.credentials().to_string(), documents })
            },
            _ => None,
        };
        (Reverse::DoNothing, upload)
    }
}

/// Reports documents from responses to a server, as `Collector` does:
/// processors whose hostname does not match are skipped.
#[derive(Debug)]
pub struct Reporter {
    /// Base of the collection endpoint; nothing is reported without one.
    pub report_to: Option<Uri>,
    pub processors: Vec<Processor>,
}

impl Reporter {
    pub fn new(report_to: Option<Uri>, processors: Vec<Processor>) -> (r: Reporter)
        ensures
            r.report_to == report_to,
            r.processors == processors,
    {
        Reporter { report_to, processors }
    }

    /// The document for one response: folder `temp`, and as data the array
    /// of what each processor whose hostname matches extracted.
    pub fn process(&self, resp: &Response) -> (r: CreateDocument)
        ensures
            r.folder@ == temp_folder(),
            r.data == DocumentData::Present(json_array(extracted(self.processors@, *resp))),
    {
        let mut documents: Vec<serde_json::Value> = Vec::new();
        let mut i: usize = 0;
        while i < self.processors.len()
            invariant
                i <= self.processors@.len(),
                documents@ == extracted(self.processors@.subrange(0, i as int), *resp),
            decreases self.processors@.len() - i,
        {
            proof {
                assert(self.processors@.subrange(0, i + 1).drop_last() =~= self.processors@.subrange(0, i as int));
            }
            match self.processors[i].process(resp) {
                Some(document) => documents.push(document),
                None => {},
            }
            i = i + 1;
        }
        proof {
            assert(self.processors@.subrange(0, self.processors@.len() as int) =~= self.processors@);
            reveal_strlit("temp");
        }
        let folder = "temp";
        proof {
            assert(folder@ =~= temp_folder());
        }
        CreateDocument { folder: folder.to_string(), data: DocumentData::Present(to_json_array(documents)) }
    }

    /// Handles a response: it goes on unchanged, and where an endpoint is
    /// configured and the flow was authenticated, its document is to be
    /// uploaded with the flow's credential as bearer token.
    pub fn on_response<P>(&self, flow: &Flow<P>, resp: &Response) -> (r: (Reverse, Option<Upload>))
        ensures
            r.0 is DoNothing,
            match (self.report_to, flow.auth_view()) {
                (Some(u), Some(c)) => r.1 matches Some(up) && {
                    &&& up.url@ == trim_slashes(u.text@) + documents_path()
                    &&& up.token@ == c.credentials_view()
                    &&& up.documents@.len() == 1
                    &&& up.documents@[0].folder@ == temp_folder()
                    &&& up.documents@[0].data == DocumentData::Present(json_array(extracted(self.processors@, *resp)))
                },
                _ => r.1 is None,
            },
    {
        let upload = match (&self.report_to, flow.auth()) {
            (Some(u), Some(credentials)) => {
                proof {
                    reveal_strlit("/api/documents");
                }
                let url = join(trim_end_slashes(u.as_str()), "/api/documents");
                let document = self.process(resp);
                let mut documents: Vec<CreateDocument> = Vec::new();
                documents.push(document);
                Some(Upload { url, token: credentials.credentials().to_string(), documents })
            },
            _ => None,
        };
        (Reverse::DoNothing, upload)
    }
}

} // verus!
