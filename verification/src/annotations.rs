//! Annotation requests: create, list and update, each built through a
//! builder that rejects an empty type, an empty dataset list and a start
//! time after the end time at construction, never at call time.
//!
//! Times are Unix timestamps in milliseconds.

use vstd::prelude::*;

use crate::error::Error;

verus! {

/// An annotation.
#[derive(Debug, Clone)]
pub struct Annotation {
    /// The unique id of the annotation.
    pub id: String,
    /// The type of the event the annotation marks.
    pub annotation_type: String,
    /// The dataset names the annotation appears on.
    pub datasets: Vec<String>,
    /// The explanation of the event.
    pub description: Option<String>,
    /// The summary shown on the charts.
    pub title: Option<String>,
    /// A URL relevant for the event.
    pub url: Option<String>,
    /// The time the annotation marks.
    pub time: i64,
    /// The end time of the annotation.
    pub end_time: Option<i64>,
}

/// The ghost model of a create request.
#[verifier::ext_equal]
pub ghost struct CreateModel {
    /// The type of the marked event.
    pub annotation_type: Seq<char>,
    /// The dataset names.
    pub datasets: Seq<Seq<char>>,
    /// The explanation of the event.
    pub description: Option<Seq<char>>,
    /// The summary shown on the charts.
    pub title: Option<Seq<char>>,
    /// A URL relevant for the event.
    pub url: Option<Seq<char>>,
    /// The start time.
    pub time: Option<int>,
    /// The end time.
    pub end_time: Option<int>,
}

/// A request to create an annotation.
#[derive(Debug)]
pub struct Create {
    annotation_type: String,
    datasets: Vec<String>,
    description: Option<String>,
    title: Option<String>,
    url: Option<String>,
    time: Option<i64>,
    end_time: Option<i64>,
}

impl View for Create {
    type V = CreateModel;

    closed spec fn view(&self) -> CreateModel {
        CreateModel {
            annotation_type: self.annotation_type@,
            datasets: self.datasets.deep_view(),
            description: self.description.deep_view(),
            title: self.title.deep_view(),
            url: self.url.deep_view(),
            time: match self.time {
                Some(t) => Some(t as int),
                None => None,
            },
            end_time: match self.end_time {
                Some(t) => Some(t as int),
                None => None,
            },
        }
    }
}

/// The builder needs an annotation type to be set.
pub struct NeedsType;

/// The builder needs datasets to be set.
pub struct NeedsDatasets;

/// The builder is ready to build the request; optional fields can still be
/// set.
pub struct Optionals;

/// A builder for a create request; its type parameter is the build state.
#[derive(Debug)]
pub struct CreateBuilder<T> {
    request: Create,
    phantom: core::marker::PhantomData<T>,
}

impl<T> CreateBuilder<T> {
    /// The request built so far.
    pub closed spec fn spec_request(&self) -> CreateModel {
        self.request@
    }
}

impl Create {
    /// A builder for a create request.
    pub fn builder() -> (r: CreateBuilder<NeedsType>)
        ensures
            r.spec_request() =~~= empty_create(),
    {
        CreateBuilder {
            request: Create {
                annotation_type: String::new(),
                datasets: Vec::new(),
                description: None,
                title: None,
                url: None,
                time: None,
                end_time: None,
            },
            phantom: core::marker::PhantomData,
        }
    }

    /// Creates a simple annotation request with just a type and datasets.
    ///
    /// Fails when the type is empty or the dataset list is empty, exactly as
    /// the builder does.
    pub fn new(annotation_type: &str, datasets: Vec<String>) -> (r: Result<Create, Error>)
        ensures
            match r {
                Ok(c) => {
                    &&& annotation_type@.len() > 0
                    &&& datasets@.len() > 0
                    &&& c@ =~~= (CreateModel {
                        annotation_type: annotation_type@,
                        datasets: datasets.deep_view(),
                        ..empty_create()
                    })
                },
                Err(e) => {
                    ||| e matches Error::EmptyType && annotation_type@.len() == 0
                    ||| e matches Error::EmptyDatasets && annotation_type@.len() > 0
                        && datasets@.len() == 0
                },
            },
    {
        let b = Create::builder().with_type(annotation_type)?;
        let b = b.with_datasets(datasets)?;
        Ok(b.build())
    }
}

/// The model of a fresh create request: nothing set.
pub open spec fn empty_create() -> CreateModel {
    CreateModel {
        annotation_type: Seq::empty(),
        datasets: Seq::empty(),
        description: None,
        title: None,
        url: None,
        time: None,
        end_time: None,
    }
}

impl CreateBuilder<NeedsType> {
    /// Sets the type of the annotation. An empty type is rejected.
    pub fn with_type(self, annotation_type: &str) -> (r: Result<
        CreateBuilder<NeedsDatasets>,
        Error,
    >)
        ensures
            match r {
                Ok(b) => annotation_type@.len() > 0 && b.spec_request() =~~= (CreateModel {
                    annotation_type: annotation_type@,
                    ..self.spec_request()
                }),
                Err(e) => e matches Error::EmptyType && annotation_type@.len() == 0,
            },
    {
        if annotation_type.unicode_len() == 0 {
            return Err(Error::EmptyType);
        }
        Ok(
            CreateBuilder {
                request: Create { annotation_type: annotation_type.to_owned(), ..self.request },
                phantom: core::marker::PhantomData,
            },
        )
    }
}

impl CreateBuilder<NeedsDatasets> {
    /// Sets the datasets the annotation appears on. An empty list is
    /// rejected.
    pub fn with_datasets(self, datasets: Vec<String>) -> (r: Result<CreateBuilder<Optionals>, Error>)
        ensures
            match r {
                Ok(b) => datasets@.len() > 0 && b.spec_request() =~~= (CreateModel {
                    datasets: datasets.deep_view(),
                    ..self.spec_request()
                }),
                Err(e) => e matches Error::EmptyDatasets && datasets@.len() == 0,
            },
    {
        if datasets.len() == 0 {
            return Err(Error::EmptyDatasets);
        }
        Ok(
            CreateBuilder {
                request: Create { datasets, ..self.request },
                phantom: core::marker::PhantomData,
            },
        )
    }
}

impl CreateBuilder<Optionals> {
    /// Builds the request.
    pub fn build(self) -> (r: Create)
        ensures
            r@ == self.spec_request(),
    {
        self.request
    }

    /// Sets the description of the annotation.
    pub fn with_description(self, description: &str) -> (r: Self)
        ensures
            r.spec_request() =~~= (CreateModel {
                description: Some(description@),
                ..self.spec_request()
            }),
    {
        CreateBuilder {
            request: Create { description: Some(description.to_owned()), ..self.request },
            phantom: core::marker::PhantomData,
        }
    }

    /// Sets the title of the annotation.
    pub fn with_title(self, title: &str) -> (r: Self)
        ensures
            r.spec_request() =~~= (CreateModel { title: Some(title@), ..self.spec_request() }),
    {
        CreateBuilder {
            request: Create { title: Some(title.to_owned()), ..self.request },
            phantom: core::marker::PhantomData,
        }
    }

    /// Sets the URL of the annotation.
    pub fn with_url(self, url: String) -> (r: Self)
        ensures
            r.spec_request() =~~= (CreateModel { url: Some(url@), ..self.spec_request() }),
    {
        CreateBuilder {
            request: Create { url: Some(url), ..self.request },
            phantom: core::marker::PhantomData,
        }
    }

    /// Sets the start time of the annotation. A start time after a set end
    /// time is rejected.
    pub fn with_time(self, time: i64) -> (r: Result<Self, Error>)
        ensures
            match r {
                Ok(b) => (self.spec_request().end_time matches Some(e) ==> time <= e)
                    && b.spec_request() =~~= (CreateModel {
                    time: Some(time as int),
                    ..self.spec_request()
                }),
                Err(e) => {
                    &&& e matches Error::InvalidTimeOrder
                    &&& self.spec_request().end_time matches Some(et) && time > et
                },
            },
    {
        if let Some(end_time) = self.request.end_time {
            if time > end_time {
                return Err(Error::InvalidTimeOrder);
            }
        }
        Ok(
            CreateBuilder {
                request: Create { time: Some(time), ..self.request },
                phantom: core::marker::PhantomData,
            },
        )
    }

    /// Sets the end time of the annotation. An end time before a set start
    /// time is rejected.
    pub fn with_end_time(self, end_time: i64) -> (r: Result<Self, Error>)
        ensures
            match r {
                Ok(b) => (self.spec_request().time matches Some(t) ==> t <= end_time)
                    && b.spec_request() =~~= (CreateModel {
                    end_time: Some(end_time as int),
                    ..self.spec_request()
                }),
                Err(e) => {
                    &&& e matches Error::InvalidTimeOrder
                    &&& self.spec_request().time matches Some(t) && t > end_time
                },
            },
    {
        if let Some(time) = self.request.time {
            if time > end_time {
                return Err(Error::InvalidTimeOrder);
            }
        }
        Ok(
            CreateBuilder {
                request: Create { end_time: Some(end_time), ..self.request },
                phantom: core::marker::PhantomData,
            },
        )
    }
}

/// The ghost model of a list request.
#[verifier::ext_equal]
pub ghost struct ListModel {
    /// The dataset names to list for, when restricted.
    pub datasets: Option<Seq<Seq<char>>>,
    /// The start of the listed range.
    pub start: Option<int>,
    /// The end of the listed range.
    pub end: Option<int>,
}

/// A request to list annotations.
#[derive(Debug)]
pub struct List {
    datasets: Option<Vec<String>>,
    start: Option<i64>,
    end: Option<i64>,
}

impl View for List {
    type V = ListModel;

    closed spec fn view(&self) -> ListModel {
        ListModel {
            datasets: self.datasets.deep_view(),
            start: match self.start {
                Some(t) => Some(t as int),
                None => None,
            },
            end: match self.end {
                Some(t) => Some(t as int),
                None => None,
            },
        }
    }
}

impl Default for List {
    /// A list request with no restriction.
    fn default() -> (r: Self)
        ensures
            r@ =~~= (ListModel { datasets: None, start: None, end: None }),
    {
        List { datasets: None, start: None, end: None }
    }
}

impl List {
    /// A builder for a list request.
    pub fn builder() -> (r: ListBuilder)
        ensures
            r.spec_request() =~~= (ListModel { datasets: None, start: None, end: None }),
    {
        ListBuilder { request: List { datasets: None, start: None, end: None } }
    }
}

/// A builder for a list request.
#[derive(Debug)]
pub struct ListBuilder {
    request: List,
}

impl ListBuilder {
    /// The request built so far.
    pub closed spec fn spec_request(&self) -> ListModel {
        self.request@
    }

    /// Restricts the listing to the given datasets.
    pub fn with_datasets(self, datasets: Vec<String>) -> (r: Self)
        ensures
            r.spec_request() =~~= (ListModel {
                datasets: Some(datasets.deep_view()),
                ..self.spec_request()
            }),
    {
        ListBuilder { request: List { datasets: Some(datasets), ..self.request } }
    }

    /// Sets the start of the listed range. A start after a set end is
    /// rejected.
    pub fn with_start(self, start: i64) -> (r: Result<Self, Error>)
        ensures
            match r {
                Ok(b) => (self.spec_request().end matches Some(e) ==> start <= e)
                    && b.spec_request() =~~= (ListModel {
                    start: Some(start as int),
                    ..self.spec_request()
                }),
                Err(e) => {
                    &&& e matches Error::InvalidTimeOrder
                    &&& self.spec_request().end matches Some(et) && start > et
                },
            },
    {
        if let Some(end) = self.request.end {
            if start > end {
                return Err(Error::InvalidTimeOrder);
            }
        }
        Ok(ListBuilder { request: List { start: Some(start), ..self.request } })
    }

    /// Sets the end of the listed range. An end before a set start is
    /// rejected.
    pub fn with_end(self, end: i64) -> (r: Result<Self, Error>)
        ensures
            match r {
                Ok(b) => (self.spec_request().start matches Some(s) ==> s <= end)
                    && b.spec_request() =~~= (ListModel {
                    end: Some(end as int),
                    ..self.spec_request()
                }),
                Err(e) => {
                    &&& e matches Error::InvalidTimeOrder
                    &&& self.spec_request().start matches Some(s) && s > end
                },
            },
    {
        if let Some(start) = self.request.start {
            if start > end {
                return Err(Error::InvalidTimeOrder);
            }
        }
        Ok(ListBuilder { request: List { end: Some(end), ..self.request } })
    }

    /// Builds the request.
    pub fn build(self) -> (r: List)
        ensures
            r@ == self.spec_request(),
    {
        self.request
    }
}

/// The ghost model of an update request.
#[verifier::ext_equal]
pub ghost struct UpdateModel {
    /// The type of the marked event, when updated.
    pub annotation_type: Option<Seq<char>>,
    /// The dataset names, when updated.
    pub datasets: Option<Seq<Seq<char>>>,
    /// The explanation, when updated.
    pub description: Option<Seq<char>>,
    /// The title, when updated.
    pub title: Option<Seq<char>>,
    /// The URL, when updated.
    pub url: Option<Seq<char>>,
    /// The start time, when updated.
    pub time: Option<int>,
    /// The end time, when updated.
    pub end_time: Option<int>,
}

/// A request to update an annotation.
#[derive(Debug)]
pub struct Update {
    annotation_type: Option<String>,
    datasets: Option<Vec<String>>,
    description: Option<String>,
    title: Option<String>,
    url: Option<String>,
    time: Option<i64>,
    end_time: Option<i64>,
}

impl View for Update {
    type V = UpdateModel;

    closed spec fn view(&self) -> UpdateModel {
        UpdateModel {
            annotation_type: self.annotation_type.deep_view(),
            datasets: self.datasets.deep_view(),
            description: self.description.deep_view(),
            title: self.title.deep_view(),
            url: self.url.deep_view(),
            time: match self.time {
                Some(t) => Some(t as int),
                None => None,
            },
            end_time: match self.end_time {
                Some(t) => Some(t as int),
                None => None,
            },
        }
    }
}

/// The model of a fresh update request: nothing updated.
pub open spec fn empty_update() -> UpdateModel {
    UpdateModel {
        annotation_type: None,
        datasets: None,
        description: None,
        title: None,
        url: None,
        time: None,
        end_time: None,
    }
}

impl Update {
    /// A builder for an update request.
    pub fn builder() -> (r: UpdateBuilder)
        ensures
            r.spec_request() =~~= empty_update(),
    {
        UpdateBuilder {
            request: Update {
                annotation_type: None,
                datasets: None,
                description: None,
                title: None,
                url: None,
                time: None,
                end_time: None,
            },
        }
    }
}

/// A builder for an update request.
#[derive(Debug)]
pub struct UpdateBuilder {
    request: Update,
}

impl UpdateBuilder {
    /// The request built so far.
    pub closed spec fn spec_request(&self) -> UpdateModel {
        self.request@
    }

    /// Builds the request. A request that updates nothing is rejected.
    pub fn build(self) -> (r: Result<Update, Error>)
        ensures
            match r {
                Ok(u) => u@ == self.spec_request() && !(self.spec_request() =~~= empty_update()),
                Err(e) => e matches Error::EmptyUpdate && self.spec_request() =~~= empty_update(),
            },
    {
        let request = self.request;
        if request.annotation_type.is_none() && request.datasets.is_none()
            && request.description.is_none() && request.title.is_none() && request.url.is_none()
            && request.time.is_none() && request.end_time.is_none() {
            return Err(Error::EmptyUpdate);
        }
        Ok(request)
    }

    /// Sets the type of the annotation. An empty type is rejected.
    pub fn with_type(self, annotation_type: &str) -> (r: Result<Self, Error>)
        ensures
            match r {
                Ok(b) => annotation_type@.len() > 0 && b.spec_request() =~~= (UpdateModel {
                    annotation_type: Some(annotation_type@),
                    ..self.spec_request()
                }),
                Err(e) => e matches Error::EmptyType && annotation_type@.len() == 0,
            },
    {
        if annotation_type.unicode_len() == 0 {
            return Err(Error::EmptyType);
        }
        Ok(
            UpdateBuilder {
                request: Update {
                    annotation_type: Some(annotation_type.to_owned()),
                    ..self.request
                },
            },
        )
    }

    /// Sets the datasets the annotation appears on.
    pub fn with_datasets(self, datasets: Vec<String>) -> (r: Self)
        ensures
            r.spec_request() =~~= (UpdateModel {
                datasets: Some(datasets.deep_view()),
                ..self.spec_request()
            }),
    {
        UpdateBuilder { request: Update { datasets: Some(datasets), ..self.request } }
    }

    /// Sets the description of the annotation.
    pub fn with_description(self, description: &str) -> (r: Self)
        ensures
            r.spec_request() =~~= (UpdateModel {
                description: Some(description@),
                ..self.spec_request()
            }),
    {
        UpdateBuilder {
            request: Update { description: Some(description.to_owned()), ..self.request },
        }
    }

    /// Sets the title of the annotation.
    pub fn with_title(self, title: &str) -> (r: Self)
        ensures
            r.spec_request() =~~= (UpdateModel { title: Some(title@), ..self.spec_request() }),
    {
        UpdateBuilder { request: Update { title: Some(title.to_owned()), ..self.request } }
    }

    /// Sets the URL of the annotation.
    pub fn with_url(self, url: String) -> (r: Self)
        ensures
            r.spec_request() =~~= (UpdateModel { url: Some(url@), ..self.spec_request() }),
    {
        UpdateBuilder { request: Update { url: Some(url), ..self.request } }
    }

    /// Sets the start time of the annotation. A start time after a set end
    /// time is rejected.
    pub fn with_time(self, time: i64) -> (r: Result<Self, Error>)
        ensures
            match r {
                Ok(b) => (self.spec_request().end_time matches Some(e) ==> time <= e)
                    && b.spec_request() =~~= (UpdateModel {
                    time: Some(time as int),
                    ..self.spec_request()
                }),
                Err(e) => {
                    &&& e matches Error::InvalidTimeOrder
                    &&& self.spec_request().end_time matches Some(et) && time > et
                },
            },
    {
        if let Some(end_time) = self.request.end_time {
            if time > end_time {
                return Err(Error::InvalidTimeOrder);
            }
        }
        Ok(UpdateBuilder { request: Update { time: Some(time), ..self.request } })
    }

    /// Sets the end time of the annotation. An end time before a set start
    /// time is rejected.
    pub fn with_end_time(self, end_time: i64) -> (r: Result<Self, Error>)
        ensures
            match r {
                Ok(b) => (self.spec_request().time matches Some(t) ==> t <= end_time)
                    && b.spec_request() =~~= (UpdateModel {
                    end_time: Some(end_time as int),
                    ..self.spec_request()
                }),
                Err(e) => {
                    &&& e matches Error::InvalidTimeOrder
                    &&& self.spec_request().time matches Some(t) && t > end_time
                },
            },
    {
        if let Some(time) = self.request.time {
            if time > end_time {
                return Err(Error::InvalidTimeOrder);
            }
        }
        Ok(UpdateBuilder { request: Update { end_time: Some(end_time), ..self.request } })
    }
}

} // verus!
