//! Queries that target the `/works` resource: field-scoped search, the
//! closed filter set, element selection, cursor paging, and the full query
//! route.

use vstd::prelude::*;
use vstd::string::*;
use crate::dates::{CalendarDate, date_str, date_string};
use crate::error::ErrorKind;
use crate::query::facet::FacetCount;
use crate::query::types::Type;
use crate::query::{
    Component, CrossrefParams, CrossrefQueryParam, CrossrefRoute, Filter, Order, ParamFragment,
    ResultControl, Sort, Visibility, format_queries, format_queries_spec, fragment_spec,
    join_strings, kv_param_spec, make_fragment, make_param, opt_str_view,
};
use crate::strutil::{collapse_spaces, dec_str, join_sep, lemma_map_values_push, push_collapsed, push_u64};

verus! {

/// The metadata elements a `/works` response can be narrowed to with the
/// `select=` parameter.
#[derive(Debug, Clone)]
pub enum WorkElement {
    /// The `DOI` element.
    DOI,
    /// The `ISBN` element.
    ISBN,
    /// The `ISSN` element.
    ISSN,
    /// The `URL` element.
    URL,
    /// The `abstract` element.
    Abstract_,
    /// The `accepted` element.
    Accepted,
    /// The `alternative-id` element.
    AlternativeId,
    /// The `approved` element.
    Approved,
    /// The `archive` element.
    Archive,
    /// The `article-number` element.
    ArticleNumber,
    /// The `assertion` element.
    Assertion,
    /// The `author` element.
    Author,
    /// The `chair` element.
    Chair,
    /// The `clinical-trial-number` element.
    ClinicalTrialNumber,
    /// The `container-title` element.
    ContainerTitle,
    /// The `content-created` element.
    ContentCreated,
    /// The `content-domain` element.
    ContentDomain,
    /// The `created` element.
    Created,
    /// The `degree` element.
    Degree,
    /// The `deposited` element.
    Deposited,
    /// The `editor` element.
    Editor,
    /// The `event` element.
    Event,
    /// The `funder` element.
    Funder,
    /// The `group-title` element.
    GroupTitle,
    /// The `indexed` element.
    Indexed,
    /// The `is-referenced-by-count` element.
    IsReferencedByCount,
    /// The `issn-type` element.
    IssnType,
    /// The `issue` element.
    Issue,
    /// The `issued` element.
    Issued,
    /// The `license` element.
    License,
    /// The `link` element.
    Link,
    /// The `member` element.
    Member,
    /// The `original-title` element.
    OriginalTitle,
    /// The `page` element.
    Page,
    /// The `posted` element.
    Posted,
    /// The `prefix` element.
    Prefix,
    /// The `published` element.
    Published,
    /// The `published-online` element.
    PublishedOnline,
    /// The `published-print` element.
    PublishedPrint,
    /// The `publisher` element.
    Publisher,
    /// The `publisher-location` element.
    PublisherLocation,
    /// The `reference` element.
    Reference,
    /// The `references-count` element.
    ReferencesCount,
    /// The `relation` element.
    Relation,
    /// The `score` element.
    Score,
    /// The `short-container-title` element.
    ShortContainerTitle,
    /// The `short-title` element.
    ShortTitle,
    /// The `standards-body` element.
    StandardsBody,
    /// The `subject` element.
    Subject,
    /// The `subtitle` element.
    Subtitle,
    /// The `title` element.
    Title,
    /// The `translator` element.
    Translator,
    /// The `type` element.
    Type,
    /// The `update-policy` element.
    UpdatePolicy,
    /// The `update-to` element.
    UpdateTo,
    /// The `updated-by` element.
    UpdatedBy,
    /// The `volume` element.
    Volume,
}

impl WorkElement {
    /// The wire identifier, as the contracts state it.
    pub open spec fn name_spec(&self) -> Seq<char> {
        match self {
            WorkElement::DOI => "DOI"@,
            WorkElement::ISBN => "ISBN"@,
            WorkElement::ISSN => "ISSN"@,
            WorkElement::URL => "URL"@,
            WorkElement::Abstract_ => "abstract"@,
            WorkElement::Accepted => "accepted"@,
            WorkElement::AlternativeId => "alternative-id"@,
            WorkElement::Approved => "approved"@,
            WorkElement::Archive => "archive"@,
            WorkElement::ArticleNumber => "article-number"@,
            WorkElement::Assertion => "assertion"@,
            WorkElement::Author => "author"@,
            WorkElement::Chair => "chair"@,
            WorkElement::ClinicalTrialNumber => "clinical-trial-number"@,
            WorkElement::ContainerTitle => "container-title"@,
            WorkElement::ContentCreated => "content-created"@,
            WorkElement::ContentDomain => "content-domain"@,
            WorkElement::Created => "created"@,
            WorkElement::Degree => "degree"@,
            WorkElement::Deposited => "deposited"@,
            WorkElement::Editor => "editor"@,
            WorkElement::Event => "event"@,
            WorkElement::Funder => "funder"@,
            WorkElement::GroupTitle => "group-title"@,
            WorkElement::Indexed => "indexed"@,
            WorkElement::IsReferencedByCount => "is-referenced-by-count"@,
            WorkElement::IssnType => "issn-type"@,
            WorkElement::Issue => "issue"@,
            WorkElement::Issued => "issued"@,
            WorkElement::License => "license"@,
            WorkElement::Link => "link"@,
            WorkElement::Member => "member"@,
            WorkElement::OriginalTitle => "original-title"@,
            WorkElement::Page => "page"@,
            WorkElement::Posted => "posted"@,
            WorkElement::Prefix => "prefix"@,
            WorkElement::Published => "published"@,
            WorkElement::PublishedOnline => "published-online"@,
            WorkElement::PublishedPrint => "published-print"@,
            WorkElement::Publisher => "publisher"@,
            WorkElement::PublisherLocation => "publisher-location"@,
            WorkElement::Reference => "reference"@,
            WorkElement::ReferencesCount => "references-count"@,
            WorkElement::Relation => "relation"@,
            WorkElement::Score => "score"@,
            WorkElement::ShortContainerTitle => "short-container-title"@,
            WorkElement::ShortTitle => "short-title"@,
            WorkElement::StandardsBody => "standards-body"@,
            WorkElement::Subject => "subject"@,
            WorkElement::Subtitle => "subtitle"@,
            WorkElement::Title => "title"@,
            WorkElement::Translator => "translator"@,
            WorkElement::Type => "type"@,
            WorkElement::UpdatePolicy => "update-policy"@,
            WorkElement::UpdateTo => "update-to"@,
            WorkElement::UpdatedBy => "updated-by"@,
            WorkElement::Volume => "volume"@,
        }
    }

    /// The identifier for the query key.
    pub fn name(&self) -> (r: &str)
        ensures
            r@ == self.name_spec(),
    {
        match self {
            WorkElement::DOI => "DOI",
            WorkElement::ISBN => "ISBN",
            WorkElement::ISSN => "ISSN",
            WorkElement::URL => "URL",
            WorkElement::Abstract_ => "abstract",
            WorkElement::Accepted => "accepted",
            WorkElement::AlternativeId => "alternative-id",
            WorkElement::Approved => "approved",
            WorkElement::Archive => "archive",
            WorkElement::ArticleNumber => "article-number",
            WorkElement::Assertion => "assertion",
            WorkElement::Author => "author",
            WorkElement::Chair => "chair",
            WorkElement::ClinicalTrialNumber => "clinical-trial-number",
            WorkElement::ContainerTitle => "container-title",
            WorkElement::ContentCreated => "content-created",
            WorkElement::ContentDomain => "content-domain",
            WorkElement::Created => "created",
            WorkElement::Degree => "degree",
            WorkElement::Deposited => "deposited",
            WorkElement::Editor => "editor",
            WorkElement::Event => "event",
            WorkElement::Funder => "funder",
            WorkElement::GroupTitle => "group-title",
            WorkElement::Indexed => "indexed",
            WorkElement::IsReferencedByCount => "is-referenced-by-count",
            WorkElement::IssnType => "issn-type",
            WorkElement::Issue => "issue",
            WorkElement::Issued => "issued",
            WorkElement::License => "license",
            WorkElement::Link => "link",
            WorkElement::Member => "member",
            WorkElement::OriginalTitle => "original-title",
            WorkElement::Page => "page",
            WorkElement::Posted => "posted",
            WorkElement::Prefix => "prefix",
            WorkElement::Published => "published",
            WorkElement::PublishedOnline => "published-online",
            WorkElement::PublishedPrint => "published-print",
            WorkElement::Publisher => "publisher",
            WorkElement::PublisherLocation => "publisher-location",
            WorkElement::Reference => "reference",
            WorkElement::ReferencesCount => "references-count",
            WorkElement::Relation => "relation",
            WorkElement::Score => "score",
            WorkElement::ShortContainerTitle => "short-container-title",
            WorkElement::ShortTitle => "short-title",
            WorkElement::StandardsBody => "standards-body",
            WorkElement::Subject => "subject",
            WorkElement::Subtitle => "subtitle",
            WorkElement::Title => "title",
            WorkElement::Translator => "translator",
            WorkElement::Type => "type",
            WorkElement::UpdatePolicy => "update-policy",
            WorkElement::UpdateTo => "update-to",
            WorkElement::UpdatedBy => "updated-by",
            WorkElement::Volume => "volume",
        }
    }
}

/// The closed set of filters that narrow a `/works` query.  Every filter
/// maps to exactly one wire key; filters without a payload emit the
/// literal value `true`, date filters render as `YYYY-MM-DD`, and typed
/// filters render their underlying identifier string.  One upstream
/// quirk is kept: the license-delay filter also renders as the literal
/// `true`, dropping its day count.
#[derive(Debug, Clone)]
pub enum WorksFilter {
    /// The `has-funder` filter.
    HasFunder,
    /// The `funder` filter.
    Funder(String),
    /// The `location` filter.
    Location(String),
    /// The `prefix` filter.
    Prefix(String),
    /// The `member` filter.
    Member(String),
    /// The `from-index-date` filter.
    FromIndexDate(CalendarDate),
    /// The `until-index-date` filter.
    UntilIndexDate(CalendarDate),
    /// The `from-deposit-date` filter.
    FromDepositDate(CalendarDate),
    /// The `until-deposit-date` filter.
    UntilDepositDate(CalendarDate),
    /// The `from-update-date` filter.
    FromUpdateDate(CalendarDate),
    /// The `until-update-date` filter.
    UntilUpdateDate(CalendarDate),
    /// The `from-created-date` filter.
    FromCreatedDate(CalendarDate),
    /// The `until-created-date` filter.
    UntilCreatedDate(CalendarDate),
    /// The `from-pub-date` filter.
    FromPubDate(CalendarDate),
    /// The `until-pub-date` filter.
    UntilPubDate(CalendarDate),
    /// The `from-online-pub-date` filter.
    FromOnlinePubDate(CalendarDate),
    /// The `until-online-pub-date` filter.
    UntilOnlinePubDate(CalendarDate),
    /// The `from-print-pub-date` filter.
    FromPrintPubDate(CalendarDate),
    /// The `until-print-pub-date` filter.
    UntilPrintPubDate(CalendarDate),
    /// The `from-posted-date` filter.
    FromPostedDate(CalendarDate),
    /// The `until-posted-date` filter.
    UntilPostedDate(CalendarDate),
    /// The `from-accepted-date` filter.
    FromAcceptedDate(CalendarDate),
    /// The `until-accepted-date` filter.
    UntilAcceptedDate(CalendarDate),
    /// The `has-license` filter.
    HasLicense,
    /// The `license.url` filter.
    LicenseUrl(String),
    /// The `license.version` filter.
    LicenseVersion(String),
    /// The `license.delay` filter.
    LicenseDelay(i32),
    /// The `has-full-text` filter.
    HasFullText,
    /// The `full-text.version` filter.
    FullTextVersion(String),
    /// The `full-text.type` filter.
    FullTextType(String),
    /// The `full-text.application` filter.
    FullTextApplication(String),
    /// The `has-references` filter.
    HasReferences,
    /// The `reference-visibility` filter.
    ReferenceVisibility(Visibility),
    /// The `has-archive` filter.
    HasArchive,
    /// The `archive` filter.
    Archive(String),
    /// The `has-orcid` filter.
    HasOrcid,
    /// The `has-authenticated-orcid` filter.
    HasAuthenticatedOrcid,
    /// The `orcid` filter.
    Orcid(String),
    /// The `issn` filter.
    Issn(String),
    /// The `isbn` filter.
    Isbn(String),
    /// The `type` filter.
    Type(Type),
    /// The `directory` filter.
    Directory(String),
    /// The `doi` filter.
    Doi(String),
    /// The `updates` filter.
    Updates(String),
    /// The `is-update` filter.
    IsUpdate,
    /// The `has-update-policy` filter.
    HasUpdatePolicy,
    /// The `container-title` filter.
    ContainerTitle(String),
    /// The `category-name` filter.
    CategoryName(String),
    /// The `type-name` filter.
    TypeName(String),
    /// The `award.number` filter.
    AwardNumber(String),
    /// The `award.funder` filter.
    AwardFunder(String),
    /// The `has-assertion` filter.
    HasAssertion,
    /// The `assertion-group` filter.
    AssertionGroup(String),
    /// The `assertion` filter.
    Assertion(String),
    /// The `has-affiliation` filter.
    HasAffiliation,
    /// The `alternative-id` filter.
    AlternativeId,
    /// The `article-number` filter.
    ArticleNumber,
    /// The `has-abstract` filter.
    HasAbstract,
    /// The `has-clinical-trial-number` filter.
    HasClinicalTrialNumber,
    /// The `content-domain` filter.
    ContentDomain(String),
    /// The `has-content-domain` filter.
    HasContentDomain,
    /// The `has-domain-restriction` filter.
    HasDomainRestriction,
    /// The `has-relation` filter.
    HasRelation,
    /// The `relation.type` filter.
    RelationType,
    /// The `relation.object` filter.
    RelationObject,
    /// The `relation.object-type` filter.
    RelationObjectType(String),
}

impl WorksFilter {
    /// The wire key, as the contracts state it.
    pub open spec fn name_spec(&self) -> Seq<char> {
        match self {
            WorksFilter::HasFunder => "has-funder"@,
            WorksFilter::Funder(_) => "funder"@,
            WorksFilter::Location(_) => "location"@,
            WorksFilter::Prefix(_) => "prefix"@,
            WorksFilter::Member(_) => "member"@,
            WorksFilter::FromIndexDate(_) => "from-index-date"@,
            WorksFilter::UntilIndexDate(_) => "until-index-date"@,
            WorksFilter::FromDepositDate(_) => "from-deposit-date"@,
            WorksFilter::UntilDepositDate(_) => "until-deposit-date"@,
            WorksFilter::FromUpdateDate(_) => "from-update-date"@,
            WorksFilter::UntilUpdateDate(_) => "until-update-date"@,
            WorksFilter::FromCreatedDate(_) => "from-created-date"@,
            WorksFilter::UntilCreatedDate(_) => "until-created-date"@,
            WorksFilter::FromPubDate(_) => "from-pub-date"@,
            WorksFilter::UntilPubDate(_) => "until-pub-date"@,
            WorksFilter::FromOnlinePubDate(_) => "from-online-pub-date"@,
            WorksFilter::UntilOnlinePubDate(_) => "until-online-pub-date"@,
            WorksFilter::FromPrintPubDate(_) => "from-print-pub-date"@,
            WorksFilter::UntilPrintPubDate(_) => "until-print-pub-date"@,
            WorksFilter::FromPostedDate(_) => "from-posted-date"@,
            WorksFilter::UntilPostedDate(_) => "until-posted-date"@,
            WorksFilter::FromAcceptedDate(_) => "from-accepted-date"@,
            WorksFilter::UntilAcceptedDate(_) => "until-accepted-date"@,
            WorksFilter::HasLicense => "has-license"@,
            WorksFilter::LicenseUrl(_) => "license.url"@,
            WorksFilter::LicenseVersion(_) => "license.version"@,
            WorksFilter::LicenseDelay(_) => "license.delay"@,
            WorksFilter::HasFullText => "has-full-text"@,
            WorksFilter::FullTextVersion(_) => "full-text.version"@,
            WorksFilter::FullTextType(_) => "full-text.type"@,
            WorksFilter::FullTextApplication(_) => "full-text.application"@,
            WorksFilter::HasReferences => "has-references"@,
            WorksFilter::ReferenceVisibility(_) => "reference-visibility"@,
            WorksFilter::HasArchive => "has-archive"@,
            WorksFilter::Archive(_) => "archive"@,
            WorksFilter::HasOrcid => "has-orcid"@,
            WorksFilter::HasAuthenticatedOrcid => "has-authenticated-orcid"@,
            WorksFilter::Orcid(_) => "orcid"@,
            WorksFilter::Issn(_) => "issn"@,
            WorksFilter::Isbn(_) => "isbn"@,
            WorksFilter::Type(_) => "type"@,
            WorksFilter::Directory(_) => "directory"@,
            WorksFilter::Doi(_) => "doi"@,
            WorksFilter::Updates(_) => "updates"@,
            WorksFilter::IsUpdate => "is-update"@,
            WorksFilter::HasUpdatePolicy => "has-update-policy"@,
            WorksFilter::ContainerTitle(_) => "container-title"@,
            WorksFilter::CategoryName(_) => "category-name"@,
            WorksFilter::TypeName(_) => "type-name"@,
            WorksFilter::AwardNumber(_) => "award.number"@,
            WorksFilter::AwardFunder(_) => "award.funder"@,
            WorksFilter::HasAssertion => "has-assertion"@,
            WorksFilter::AssertionGroup(_) => "assertion-group"@,
            WorksFilter::Assertion(_) => "assertion"@,
            WorksFilter::HasAffiliation => "has-affiliation"@,
            WorksFilter::AlternativeId => "alternative-id"@,
            WorksFilter::ArticleNumber => "article-number"@,
            WorksFilter::HasAbstract => "has-abstract"@,
            WorksFilter::HasClinicalTrialNumber => "has-clinical-trial-number"@,
            WorksFilter::ContentDomain(_) => "content-domain"@,
            WorksFilter::HasContentDomain => "has-content-domain"@,
            WorksFilter::HasDomainRestriction => "has-domain-restriction"@,
            WorksFilter::HasRelation => "has-relation"@,
            WorksFilter::RelationType => "relation.type"@,
            WorksFilter::RelationObject => "relation.object"@,
            WorksFilter::RelationObjectType(_) => "relation.object-type"@,
        }
    }

    /// The identifier for the query key.
    pub fn name(&self) -> (r: &str)
        ensures
            r@ == self.name_spec(),
    {
        match self {
            WorksFilter::HasFunder => "has-funder",
            WorksFilter::Funder(_) => "funder",
            WorksFilter::Location(_) => "location",
            WorksFilter::Prefix(_) => "prefix",
            WorksFilter::Member(_) => "member",
            WorksFilter::FromIndexDate(_) => "from-index-date",
            WorksFilter::UntilIndexDate(_) => "until-index-date",
            WorksFilter::FromDepositDate(_) => "from-deposit-date",
            WorksFilter::UntilDepositDate(_) => "until-deposit-date",
            WorksFilter::FromUpdateDate(_) => "from-update-date",
            WorksFilter::UntilUpdateDate(_) => "until-update-date",
            WorksFilter::FromCreatedDate(_) => "from-created-date",
            WorksFilter::UntilCreatedDate(_) => "until-created-date",
            WorksFilter::FromPubDate(_) => "from-pub-date",
            WorksFilter::UntilPubDate(_) => "until-pub-date",
            WorksFilter::FromOnlinePubDate(_) => "from-online-pub-date",
            WorksFilter::UntilOnlinePubDate(_) => "until-online-pub-date",
            WorksFilter::FromPrintPubDate(_) => "from-print-pub-date",
            WorksFilter::UntilPrintPubDate(_) => "until-print-pub-date",
            WorksFilter::FromPostedDate(_) => "from-posted-date",
            WorksFilter::UntilPostedDate(_) => "until-posted-date",
            WorksFilter::FromAcceptedDate(_) => "from-accepted-date",
            WorksFilter::UntilAcceptedDate(_) => "until-accepted-date",
            WorksFilter::HasLicense => "has-license",
            WorksFilter::LicenseUrl(_) => "license.url",
            WorksFilter::LicenseVersion(_) => "license.version",
            WorksFilter::LicenseDelay(_) => "license.delay",
            WorksFilter::HasFullText => "has-full-text",
            WorksFilter::FullTextVersion(_) => "full-text.version",
            WorksFilter::FullTextType(_) => "full-text.type",
            WorksFilter::FullTextApplication(_) => "full-text.application",
            WorksFilter::HasReferences => "has-references",
            WorksFilter::ReferenceVisibility(_) => "reference-visibility",
            WorksFilter::HasArchive => "has-archive",
            WorksFilter::Archive(_) => "archive",
            WorksFilter::HasOrcid => "has-orcid",
            WorksFilter::HasAuthenticatedOrcid => "has-authenticated-orcid",
            WorksFilter::Orcid(_) => "orcid",
            WorksFilter::Issn(_) => "issn",
            WorksFilter::Isbn(_) => "isbn",
            WorksFilter::Type(_) => "type",
            WorksFilter::Directory(_) => "directory",
            WorksFilter::Doi(_) => "doi",
            WorksFilter::Updates(_) => "updates",
            WorksFilter::IsUpdate => "is-update",
            WorksFilter::HasUpdatePolicy => "has-update-policy",
            WorksFilter::ContainerTitle(_) => "container-title",
            WorksFilter::CategoryName(_) => "category-name",
            WorksFilter::TypeName(_) => "type-name",
            WorksFilter::AwardNumber(_) => "award.number",
            WorksFilter::AwardFunder(_) => "award.funder",
            WorksFilter::HasAssertion => "has-assertion",
            WorksFilter::AssertionGroup(_) => "assertion-group",
            WorksFilter::Assertion(_) => "assertion",
            WorksFilter::HasAffiliation => "has-affiliation",
            WorksFilter::AlternativeId => "alternative-id",
            WorksFilter::ArticleNumber => "article-number",
            WorksFilter::HasAbstract => "has-abstract",
            WorksFilter::HasClinicalTrialNumber => "has-clinical-trial-number",
            WorksFilter::ContentDomain(_) => "content-domain",
            WorksFilter::HasContentDomain => "has-content-domain",
            WorksFilter::HasDomainRestriction => "has-domain-restriction",
            WorksFilter::HasRelation => "has-relation",
            WorksFilter::RelationType => "relation.type",
            WorksFilter::RelationObject => "relation.object",
            WorksFilter::RelationObjectType(_) => "relation.object-type",
        }
    }
}

impl ParamFragment for WorksFilter {
    open spec fn key_spec(&self) -> Seq<char> {
        self.name_spec()
    }

    open spec fn value_spec(&self) -> Option<Seq<char>> {
        match self {
            WorksFilter::Funder(s) => Some(s@),
            WorksFilter::Location(s) => Some(s@),
            WorksFilter::Prefix(s) => Some(s@),
            WorksFilter::Member(s) => Some(s@),
            WorksFilter::FromIndexDate(d) => Some(date_str(*d)),
            WorksFilter::UntilIndexDate(d) => Some(date_str(*d)),
            WorksFilter::FromDepositDate(d) => Some(date_str(*d)),
            WorksFilter::UntilDepositDate(d) => Some(date_str(*d)),
            WorksFilter::FromUpdateDate(d) => Some(date_str(*d)),
            WorksFilter::UntilUpdateDate(d) => Some(date_str(*d)),
            WorksFilter::FromCreatedDate(d) => Some(date_str(*d)),
            WorksFilter::UntilCreatedDate(d) => Some(date_str(*d)),
            WorksFilter::FromPubDate(d) => Some(date_str(*d)),
            WorksFilter::UntilPubDate(d) => Some(date_str(*d)),
            WorksFilter::FromOnlinePubDate(d) => Some(date_str(*d)),
            WorksFilter::UntilOnlinePubDate(d) => Some(date_str(*d)),
            WorksFilter::FromPrintPubDate(d) => Some(date_str(*d)),
            WorksFilter::UntilPrintPubDate(d) => Some(date_str(*d)),
            WorksFilter::FromPostedDate(d) => Some(date_str(*d)),
            WorksFilter::UntilPostedDate(d) => Some(date_str(*d)),
            WorksFilter::FromAcceptedDate(d) => Some(date_str(*d)),
            WorksFilter::UntilAcceptedDate(d) => Some(date_str(*d)),
            WorksFilter::LicenseUrl(s) => Some(s@),
            WorksFilter::LicenseVersion(s) => Some(s@),
            WorksFilter::FullTextVersion(s) => Some(s@),
            WorksFilter::FullTextType(s) => Some(s@),
            WorksFilter::FullTextApplication(s) => Some(s@),
            WorksFilter::ReferenceVisibility(vis) => Some(vis.as_str_spec()),
            WorksFilter::Archive(s) => Some(s@),
            WorksFilter::Orcid(s) => Some(s@),
            WorksFilter::Issn(s) => Some(s@),
            WorksFilter::Isbn(s) => Some(s@),
            WorksFilter::Type(t) => Some(t.id_spec()),
            WorksFilter::Directory(s) => Some(s@),
            WorksFilter::Doi(s) => Some(s@),
            WorksFilter::Updates(s) => Some(s@),
            WorksFilter::ContainerTitle(s) => Some(s@),
            WorksFilter::CategoryName(s) => Some(s@),
            WorksFilter::TypeName(s) => Some(s@),
            WorksFilter::AwardNumber(s) => Some(s@),
            WorksFilter::AwardFunder(s) => Some(s@),
            WorksFilter::AssertionGroup(s) => Some(s@),
            WorksFilter::Assertion(s) => Some(s@),
            WorksFilter::ContentDomain(s) => Some(s@),
            WorksFilter::RelationObjectType(s) => Some(s@),
            _ => Some("true"@),
        }
    }

    fn key(&self) -> (k: String) {
        String::from_str(self.name())
    }

    fn value(&self) -> (v: Option<String>) {
        match self {
            WorksFilter::Funder(s) => Some(s.clone()),
            WorksFilter::Location(s) => Some(s.clone()),
            WorksFilter::Prefix(s) => Some(s.clone()),
            WorksFilter::Member(s) => Some(s.clone()),
            WorksFilter::FromIndexDate(d) => Some(date_string(d)),
            WorksFilter::UntilIndexDate(d) => Some(date_string(d)),
            WorksFilter::FromDepositDate(d) => Some(date_string(d)),
            WorksFilter::UntilDepositDate(d) => Some(date_string(d)),
            WorksFilter::FromUpdateDate(d) => Some(date_string(d)),
            WorksFilter::UntilUpdateDate(d) => Some(date_string(d)),
            WorksFilter::FromCreatedDate(d) => Some(date_string(d)),
            WorksFilter::UntilCreatedDate(d) => Some(date_string(d)),
            WorksFilter::FromPubDate(d) => Some(date_string(d)),
            WorksFilter::UntilPubDate(d) => Some(date_string(d)),
            WorksFilter::FromOnlinePubDate(d) => Some(date_string(d)),
            WorksFilter::UntilOnlinePubDate(d) => Some(date_string(d)),
            WorksFilter::FromPrintPubDate(d) => Some(date_string(d)),
            WorksFilter::UntilPrintPubDate(d) => Some(date_string(d)),
            WorksFilter::FromPostedDate(d) => Some(date_string(d)),
            WorksFilter::UntilPostedDate(d) => Some(date_string(d)),
            WorksFilter::FromAcceptedDate(d) => Some(date_string(d)),
            WorksFilter::UntilAcceptedDate(d) => Some(date_string(d)),
            WorksFilter::LicenseUrl(s) => Some(s.clone()),
            WorksFilter::LicenseVersion(s) => Some(s.clone()),
            WorksFilter::FullTextVersion(s) => Some(s.clone()),
            WorksFilter::FullTextType(s) => Some(s.clone()),
            WorksFilter::FullTextApplication(s) => Some(s.clone()),
            WorksFilter::ReferenceVisibility(vis) => Some(String::from_str(vis.as_str())),
            WorksFilter::Archive(s) => Some(s.clone()),
            WorksFilter::Orcid(s) => Some(s.clone()),
            WorksFilter::Issn(s) => Some(s.clone()),
            WorksFilter::Isbn(s) => Some(s.clone()),
            WorksFilter::Type(t) => Some(String::from_str(t.id())),
            WorksFilter::Directory(s) => Some(s.clone()),
            WorksFilter::Doi(s) => Some(s.clone()),
            WorksFilter::Updates(s) => Some(s.clone()),
            WorksFilter::ContainerTitle(s) => Some(s.clone()),
            WorksFilter::CategoryName(s) => Some(s.clone()),
            WorksFilter::TypeName(s) => Some(s.clone()),
            WorksFilter::AwardNumber(s) => Some(s.clone()),
            WorksFilter::AwardFunder(s) => Some(s.clone()),
            WorksFilter::AssertionGroup(s) => Some(s.clone()),
            WorksFilter::Assertion(s) => Some(s.clone()),
            WorksFilter::ContentDomain(s) => Some(s.clone()),
            WorksFilter::RelationObjectType(s) => Some(s.clone()),
            _ => Some(String::from_str("true")),
        }
    }

    fn fragment(&self) -> (f: String) {
        make_fragment(self.key(), self.value())
    }
}

impl Filter for WorksFilter {
}

/// A query that matches only a particular field of metadata.
#[derive(Debug, Clone)]
pub struct FieldQuery {
    /// The field to match, for example `query.title`.
    pub name: String,
    /// The value to search for.
    pub value: String,
}

impl FieldQuery {
    /// A field query scoped to `query.title`.
    pub fn title(title: &str) -> (r: Self)
        ensures
            r.name@ == "query.title"@,
            r.value@ == title@,
    {
        FieldQuery { name: String::from_str("query.title"), value: title.to_owned() }
    }

    /// A field query scoped to `query.container-title`.
    pub fn container_title(container_title: &str) -> (r: Self)
        ensures
            r.name@ == "query.container-title"@,
            r.value@ == container_title@,
    {
        FieldQuery { name: String::from_str("query.container-title"), value: container_title.to_owned() }
    }

    /// A field query scoped to `query.author`.
    pub fn author(author: &str) -> (r: Self)
        ensures
            r.name@ == "query.author"@,
            r.value@ == author@,
    {
        FieldQuery { name: String::from_str("query.author"), value: author.to_owned() }
    }

    /// A field query scoped to `query.editor`.
    pub fn editor(editor: &str) -> (r: Self)
        ensures
            r.name@ == "query.editor"@,
            r.value@ == editor@,
    {
        FieldQuery { name: String::from_str("query.editor"), value: editor.to_owned() }
    }

    /// A field query scoped to `query.chair`.
    pub fn chair(chair: &str) -> (r: Self)
        ensures
            r.name@ == "query.chair"@,
            r.value@ == chair@,
    {
        FieldQuery { name: String::from_str("query.chair"), value: chair.to_owned() }
    }

    /// A field query scoped to `query.translator`.
    pub fn translator(translator: &str) -> (r: Self)
        ensures
            r.name@ == "query.translator"@,
            r.value@ == translator@,
    {
        FieldQuery { name: String::from_str("query.translator"), value: translator.to_owned() }
    }

    /// A field query scoped to `query.contributor`.
    pub fn contributor(contributor: &str) -> (r: Self)
        ensures
            r.name@ == "query.contributor"@,
            r.value@ == contributor@,
    {
        FieldQuery { name: String::from_str("query.contributor"), value: contributor.to_owned() }
    }

    /// A field query scoped to `query.bibliographic`.
    pub fn bibliographic(bibliographic: &str) -> (r: Self)
        ensures
            r.name@ == "query.bibliographic"@,
            r.value@ == bibliographic@,
    {
        FieldQuery { name: String::from_str("query.bibliographic"), value: bibliographic.to_owned() }
    }

    /// A field query scoped to `query.affiliation`.
    pub fn affiliation(affiliation: &str) -> (r: Self)
        ensures
            r.name@ == "query.affiliation"@,
            r.value@ == affiliation@,
    {
        FieldQuery { name: String::from_str("query.affiliation"), value: affiliation.to_owned() }
    }
}

impl CrossrefQueryParam for FieldQuery {
    open spec fn param_key_spec(&self) -> Seq<char> {
        self.name@
    }

    open spec fn param_value_spec(&self) -> Option<Seq<char>> {
        Some(collapse_spaces(self.value@))
    }

    open spec fn param_spec(&self) -> Seq<char> {
        kv_param_spec(self.param_key_spec(), self.param_value_spec())
    }

    fn param_key(&self) -> (k: String) {
        self.name.clone()
    }

    fn param_value(&self) -> (v: Option<String>) {
        let mut s = String::new();
        push_collapsed(&mut s, self.value.as_str());
        Some(s)
    }

    fn param(&self) -> (p: String) {
        make_param(self.param_key(), self.param_value())
    }
}


/// Controls how many `Work` items come back and from where: either the
/// standard paging every component offers, or cursor-based deep paging.
#[derive(Debug, Clone)]
pub enum WorkResultControl {
    /// The standard result control available for all components.
    Standard(ResultControl),
    /// Deep paging with a cursor, for result sets beyond the offset limit.
    Cursor {
        /// The cursor token Crossref handed back; absent means the wire
        /// value `*`, which starts a new deep-paging session.
        token: Option<String>,
        /// An optional row limit.
        rows: Option<usize>,
    },
}

impl WorkResultControl {
    /// An empty cursor: compiles to the wire value `*`, and Crossref
    /// answers with a fresh token in `next-cursor`.
    pub fn new_cursor() -> (r: Self)
        ensures
            r == (WorkResultControl::Cursor { token: None, rows: None }),
    {
        WorkResultControl::Cursor { token: None, rows: None }
    }

    /// A cursor carrying only a token.
    pub fn cursor(token: &str) -> (r: Self)
        ensures
            r matches WorkResultControl::Cursor { token: t, rows } && t matches Some(s) && s@
                == token@ && rows is None,
    {
        WorkResultControl::Cursor { token: Some(token.to_owned()), rows: None }
    }
}

impl Default for WorkResultControl {
    /// The default result control is an empty cursor.
    fn default() -> (r: Self)
        ensures
            r == (WorkResultControl::Cursor { token: None, rows: None }),
    {
        WorkResultControl::new_cursor()
    }
}

impl CrossrefQueryParam for WorkResultControl {
    open spec fn param_key_spec(&self) -> Seq<char> {
        match self {
            WorkResultControl::Standard(s) => s.param_key_spec(),
            WorkResultControl::Cursor { token, .. } => "cursor="@ + (match token {
                Some(t) => t@,
                None => "*"@,
            }),
        }
    }

    open spec fn param_value_spec(&self) -> Option<Seq<char>> {
        match self {
            WorkResultControl::Standard(s) => s.param_value_spec(),
            WorkResultControl::Cursor { rows, .. } => match rows {
                Some(r) => Some("rows="@ + dec_str(*r as int)),
                None => None,
            },
        }
    }

    /// A cursor joins its token and row parts with `&`, token first:
    /// `cursor={token|*}` or `cursor={token|*}&rows={n}`.
    open spec fn param_spec(&self) -> Seq<char> {
        match self {
            WorkResultControl::Standard(s) => s.param_spec(),
            WorkResultControl::Cursor { .. } => match self.param_value_spec() {
                Some(v) => self.param_key_spec() + "&"@ + v,
                None => self.param_key_spec(),
            },
        }
    }

    fn param_key(&self) -> (k: String) {
        match self {
            WorkResultControl::Standard(s) => s.param_key(),
            WorkResultControl::Cursor { token, .. } => {
                let mut s = String::from_str("cursor=");
                match token {
                    Some(t) => s.append(t.as_str()),
                    None => s.append("*"),
                }
                s
            },
        }
    }

    fn param_value(&self) -> (v: Option<String>) {
        match self {
            WorkResultControl::Standard(s) => s.param_value(),
            WorkResultControl::Cursor { rows, .. } => match rows {
                Some(r) => {
                    let mut s = String::from_str("rows=");
                    push_u64(&mut s, *r as u64);
                    Some(s)
                },
                None => None,
            },
        }
    }

    fn param(&self) -> (p: String) {
        match self {
            WorkResultControl::Standard(s) => s.param(),
            WorkResultControl::Cursor { .. } => {
                let key = self.param_key();
                match self.param_value() {
                    Some(v) => {
                        let mut s = key;
                        s.append("&");
                        s.append(v.as_str());
                        s
                    },
                    None => key,
                }
            },
        }
    }
}

/// Used to construct a query that targets Crossref `Works` elements.
/// Each query parameter is ANDed, and compilation is deterministic: the
/// parameters render in a fixed order.
#[derive(Debug, Clone)]
pub struct WorksQuery {
    /// Free-form search terms.
    pub free_form_queries: Vec<String>,
    /// Queries that match only particular fields of metadata.
    pub field_queries: Vec<FieldQuery>,
    /// Filters to apply while querying.
    pub filter: Vec<WorksFilter>,
    /// Sort results by a certain field.
    pub sort: Option<Sort>,
    /// The sort order, ascending or descending.
    pub order: Option<Order>,
    /// The metadata elements to return.
    pub elements: Vec<WorkElement>,
    /// Facet information to request in responses.
    pub facets: Vec<FacetCount>,
    /// Paging through `/works` result sets.
    pub result_control: Option<WorkResultControl>,
    /// A random-sample size; when set, every other parameter is ignored
    /// during compilation.
    pub sample: Option<usize>,
}

/// Whether a query has none of its parameters set.
pub open spec fn works_query_is_empty(q: WorksQuery) -> bool {
    &&& q.free_form_queries@.len() == 0
    &&& q.field_queries@.len() == 0
    &&& q.filter@.len() == 0
    &&& q.sort is None
    &&& q.order is None
    &&& q.elements@.len() == 0
    &&& q.facets@.len() == 0
    &&& q.result_control is None
    &&& q.sample is None
}

impl Default for WorksQuery {
    /// The default query has no parameter set.
    fn default() -> (r: Self)
        ensures
            works_query_is_empty(r),
    {
        WorksQuery {
            free_form_queries: Vec::new(),
            field_queries: Vec::new(),
            filter: Vec::new(),
            sort: None,
            order: None,
            elements: Vec::new(),
            facets: Vec::new(),
            result_control: None,
            sample: None,
        }
    }
}

/// The `select=` parameter: the element names joined by `,`.
pub open spec fn select_param_spec(elements: Seq<WorkElement>) -> Seq<char> {
    "select="@ + join_sep(elements.map_values(|e: WorkElement| e.name_spec()), ","@)
}

/// The parameters of a works query in their fixed order: `query`, then
/// each field query, then the single combined `filter`, then `select`,
/// then `facet`, then `sort`, then `order`, then the result control.
/// Omitted sections are skipped without leaving stray join characters.
pub open spec fn works_query_params(q: WorksQuery) -> Seq<Seq<char>> {
    works_query_params_head(q) + (if q.facets@.len() > 0 {
        seq![q.facets.param_spec()]
    } else {
        Seq::<Seq<char>>::empty()
    }) + (match q.sort {
        Some(s) => seq![s.param_spec()],
        None => Seq::<Seq<char>>::empty(),
    }) + (match q.order {
        Some(o) => seq![o.param_spec()],
        None => Seq::<Seq<char>>::empty(),
    }) + (match q.result_control {
        Some(rc) => seq![rc.param_spec()],
        None => Seq::<Seq<char>>::empty(),
    })
}

/// The compiled route of a works query.  A sample size set on the query
/// bypasses the whole parameter sequence: only `sample={n}` is emitted.
pub open spec fn works_query_route_spec(q: WorksQuery) -> Seq<char> {
    match q.sample {
        Some(n) => "sample="@ + dec_str(n as int),
        None => "/works?"@ + join_sep(works_query_params(q), "&"@),
    }
}

/// A sample size overrides everything: with `sample` set, the compiled
/// route is exactly `sample={n}`, whatever filters, sorts or other
/// parameters the query also carries.
pub proof fn lemma_sample_overrides(q: WorksQuery, n: usize)
    requires
        q.sample == Some(n),
    ensures
        works_query_route_spec(q) == "sample="@ + dec_str(n as int),
{
}

impl CrossrefRoute for WorksQuery {
    open spec fn route_spec(&self) -> Seq<char> {
        works_query_route_spec(*self)
    }

    fn route(&self) -> (r: Result<String, ErrorKind>) {
        if let Some(sample) = &self.sample {
            let mut s = String::from_str("sample=");
            push_u64(&mut s, *sample as u64);
            return Ok(s);
        }
        let params = self.params_vec();
        let joined = join_strings(&params, "&");
        let mut out = String::from_str("/works?");
        out.append(joined.as_str());
        Ok(out)
    }
}

/// The `select=` parameter for a non-empty element list.
fn select_param(elements: &Vec<WorkElement>) -> (s: String)
    ensures
        s@ == select_param_spec(elements@),
{
    let mut names: Vec<String> = Vec::new();
    let mut j: usize = 0;
    while j < elements.len()
        invariant
            0 <= j <= elements.len(),
            names@.len() == j,
            forall|k: int| 0 <= k < j ==> (#[trigger] names@[k])@ == elements@[k].name_spec(),
        decreases elements.len() - j,
    {
        names.push(String::from_str(elements[j].name()));
        j = j + 1;
    }
    let mut s = String::from_str("select=");
    let joined = join_strings(&names, ",");
    s.append(joined.as_str());
    proof {
        assert(names@.map_values(|p: String| p@) =~= elements@.map_values(
            |e: WorkElement| e.name_spec(),
        ));
    }
    s
}

/// The leading parameters of a works query: the `query` part, the field
/// queries, the combined filter, and the selection.
pub open spec fn works_query_params_head(q: WorksQuery) -> Seq<Seq<char>> {
    (if q.free_form_queries@.len() > 0 {
        seq!["query="@ + format_queries_spec(q.free_form_queries.deep_view())]
    } else {
        Seq::<Seq<char>>::empty()
    }) + q.field_queries@.map_values(|f: FieldQuery| f.param_spec()) + (if q.filter@.len() > 0 {
        seq![q.filter.param_spec()]
    } else {
        Seq::<Seq<char>>::empty()
    }) + (if q.elements@.len() > 0 {
        seq![select_param_spec(q.elements@)]
    } else {
        Seq::<Seq<char>>::empty()
    })
}

impl WorksQuery {
    /// Renders the leading parameters, as `works_query_params_head`
    /// states.
    #[verifier::rlimit(50)]
    fn params_head(&self) -> (params: Vec<String>)
        ensures
            params@.map_values(|p: String| p@) == works_query_params_head(*self),
    {
        let ghost s1: Seq<Seq<char>> = if self.free_form_queries@.len() > 0 {
            seq!["query="@ + format_queries_spec(self.free_form_queries.deep_view())]
        } else {
            Seq::<Seq<char>>::empty()
        };
        let ghost s2 = self.field_queries@.map_values(|f: FieldQuery| f.param_spec());
        let ghost s3: Seq<Seq<char>> = if self.filter@.len() > 0 {
            seq![self.filter.param_spec()]
        } else {
            Seq::<Seq<char>>::empty()
        };
        let ghost s4: Seq<Seq<char>> = if self.elements@.len() > 0 {
            seq![select_param_spec(self.elements@)]
        } else {
            Seq::<Seq<char>>::empty()
        };

        let mut params: Vec<String> = Vec::new();
        if self.free_form_queries.len() > 0 {
            let mut s = String::from_str("query=");
            let terms = format_queries(&self.free_form_queries);
            s.append(terms.as_str());
            proof {
                lemma_map_values_push(params@, s);
            }
            params.push(s);
        }
        proof {
            assert(params@.map_values(|p: String| p@) =~= s1);
        }
        let mut i: usize = 0;
        while i < self.field_queries.len()
            invariant
                0 <= i <= self.field_queries.len(),
                s2 == self.field_queries@.map_values(|f: FieldQuery| f.param_spec()),
                s2.len() == self.field_queries@.len(),
                params@.map_values(|p: String| p@) == s1 + s2.take(i as int),
            decreases self.field_queries.len() - i,
        {
            let p = self.field_queries[i].param();
            proof {
                lemma_map_values_push(params@, p);
                assert(s2.take(i as int + 1) =~= s2.take(i as int).push(s2[i as int]));
                assert(s1 + s2.take(i as int).push(s2[i as int]) =~= (s1 + s2.take(i as int)).push(
                    s2[i as int],
                ));
            }
            params.push(p);
            i = i + 1;
        }
        proof {
            assert(s2.take(self.field_queries@.len() as int) =~= s2);
        }
        if self.filter.len() > 0 {
            let p = self.filter.param();
            proof {
                lemma_map_values_push(params@, p);
                assert((s1 + s2).push(p@) =~= s1 + s2 + s3);
            }
            params.push(p);
        }
        proof {
            assert(params@.map_values(|p: String| p@) =~= s1 + s2 + s3);
        }
        if self.elements.len() > 0 {
            let s = select_param(&self.elements);
            proof {
                lemma_map_values_push(params@, s);
                assert((s1 + s2 + s3).push(s@) =~= s1 + s2 + s3 + s4);
            }
            params.push(s);
        }
        proof {
            assert(params@.map_values(|p: String| p@) =~= s1 + s2 + s3 + s4);
            assert(s1 + s2 + s3 + s4 == works_query_params_head(*self));
        }
        params
    }

    /// Renders every set parameter, in the fixed order
    /// `works_query_params` states.
    #[verifier::rlimit(50)]
    fn params_vec(&self) -> (params: Vec<String>)
        ensures
            params@.map_values(|p: String| p@) == works_query_params(*self),
    {
        let ghost h = works_query_params_head(*self);
        let ghost s5: Seq<Seq<char>> = if self.facets@.len() > 0 {
            seq![self.facets.param_spec()]
        } else {
            Seq::<Seq<char>>::empty()
        };
        let ghost s6: Seq<Seq<char>> = match &self.sort {
            Some(s) => seq![s.param_spec()],
            None => Seq::<Seq<char>>::empty(),
        };
        let ghost s7: Seq<Seq<char>> = match &self.order {
            Some(o) => seq![o.param_spec()],
            None => Seq::<Seq<char>>::empty(),
        };
        let ghost s8: Seq<Seq<char>> = match &self.result_control {
            Some(rc) => seq![rc.param_spec()],
            None => Seq::<Seq<char>>::empty(),
        };
        let mut params = self.params_head();
        if self.facets.len() > 0 {
            let p = self.facets.param();
            proof {
                lemma_map_values_push(params@, p);
                assert(h.push(p@) =~= h + s5);
            }
            params.push(p);
        }
        proof {
            assert(params@.map_values(|p: String| p@) =~= h + s5);
        }
        if let Some(sort) = &self.sort {
            let p = sort.param();
            proof {
                lemma_map_values_push(params@, p);
                assert((h + s5).push(p@) =~= h + s5 + s6);
            }
            params.push(p);
        }
        proof {
            assert(params@.map_values(|p: String| p@) =~= h + s5 + s6);
        }
        if let Some(order) = &self.order {
            let p = order.param();
            proof {
                lemma_map_values_push(params@, p);
                assert((h + s5 + s6).push(p@) =~= h + s5 + s6 + s7);
            }
            params.push(p);
        }
        proof {
            assert(params@.map_values(|p: String| p@) =~= h + s5 + s6 + s7);
        }
        if let Some(rc) = &self.result_control {
            let p = rc.param();
            proof {
                lemma_map_values_push(params@, p);
                assert((h + s5 + s6 + s7).push(p@) =~= h + s5 + s6 + s7 + s8);
            }
            params.push(p);
        }
        proof {
            assert(params@.map_values(|p: String| p@) =~= h + s5 + s6 + s7 + s8);
            assert(h + s5 + s6 + s7 + s8 == works_query_params(*self));
        }
        params
    }
}


/// Targets the `/works` resource: a single publication by DOI, a query,
/// or the registration agency of a DOI.
#[derive(Debug, Clone)]
pub enum Works {
    /// Target a work by its identifier: `/works/{id}`.
    Identifier(String),
    /// Target works by a query.
    Query(WorksQuery),
    /// Ask for the registration agency of a DOI.
    Agency(String),
}

impl Works {
    /// Targets the publication with the given DOI.
    pub fn doi(doi: &str) -> (r: Self)
        ensures
            r matches Works::Identifier(s) && s@ == doi@,
    {
        Works::Identifier(doi.to_owned())
    }

    /// Targets the registration agency for the given DOI.
    pub fn agency_for_doi(doi: &str) -> (r: Self)
        ensures
            r matches Works::Agency(s) && s@ == doi@,
    {
        Works::Agency(doi.to_owned())
    }
}

impl CrossrefRoute for Works {
    open spec fn route_spec(&self) -> Seq<char> {
        match self {
            Works::Identifier(s) => "/works/"@ + s@,
            Works::Agency(s) => "/works/"@ + s@ + "/agency"@,
            Works::Query(q) => works_query_route_spec(*q),
        }
    }

    fn route(&self) -> (r: Result<String, ErrorKind>) {
        match self {
            Works::Identifier(id) => {
                let mut s = String::from_str("/works/");
                s.append(id.as_str());
                Ok(s)
            },
            Works::Agency(id) => {
                let mut s = String::from_str("/works/");
                s.append(id.as_str());
                s.append("/agency");
                Ok(s)
            },
            Works::Query(q) => q.route(),
        }
    }
}

/// Binds a works query to the identifier of an item of another component,
/// for the combined route `/{component}/{id}/works?...`.
#[derive(Debug, Clone)]
pub struct WorksIdentQuery {
    /// The identifier of the component item.
    pub id: String,
    /// The query that narrows the works of that item.
    pub query: WorksQuery,
}

impl WorksIdentQuery {
    /// Binds `query` to the item identified by `id`.
    pub fn new(id: &str, query: WorksQuery) -> (r: Self)
        ensures
            r.id@ == id@,
            r.query == query,
    {
        WorksIdentQuery { id: id.to_owned(), query }
    }
}

/// The combined route of a sub-resource query bound to a parent item:
/// `/{component}/{id}{compiled works query}`.
pub open spec fn combined_route_spec(c: Component, ident: WorksIdentQuery) -> Seq<char> {
    c.route_spec() + "/"@ + ident.id@ + works_query_route_spec(ident.query)
}

/// Renders the combined route, as `combined_route_spec` describes.
pub fn combined_route_str(c: &Component, ident: &WorksIdentQuery) -> (r: Result<String, ErrorKind>)
    ensures
        r matches Ok(s) && s@ == combined_route_spec(*c, *ident),
{
    let mut s = match c.route() {
        Ok(s) => s,
        Err(e) => {
            return Err(e);
        },
    };
    s.append("/");
    s.append(ident.id.as_str());
    let q = match ident.query.route() {
        Ok(q) => q,
        Err(e) => {
            return Err(e);
        },
    };
    s.append(q.as_str());
    Ok(s)
}

/// Wraps queries that target a list of works, either directly or combined
/// with a parent component.
#[derive(Debug, Clone)]
pub enum WorkListQuery {
    /// Target `/works` directly.
    Works(WorksQuery),
    /// Target the works of one item of another component.
    Combined {
        /// The parent component, the one in `/{primary_component}/{id}/works`.
        primary_component: Component,
        /// The bound identifier and query.
        ident: WorksIdentQuery,
    },
}

impl WorkListQuery {
    /// The works query inside, as the contracts state it.
    pub open spec fn query_spec(&self) -> WorksQuery {
        match self {
            WorkListQuery::Works(q) => *q,
            WorkListQuery::Combined { ident, .. } => ident.query,
        }
    }

    /// A mutable reference to the underlying works query.
    pub fn query_mut(&mut self) -> (r: &mut WorksQuery)
        ensures
            *r == old(self).query_spec(),
    {
        match self {
            WorkListQuery::Works(q) => q,
            WorkListQuery::Combined { ident, .. } => &mut ident.query,
        }
    }

    /// The underlying works query.
    pub fn query(&self) -> (r: &WorksQuery)
        ensures
            *r == self.query_spec(),
    {
        match self {
            WorkListQuery::Works(q) => q,
            WorkListQuery::Combined { ident, .. } => &ident.query,
        }
    }
}

impl From<WorksQuery> for WorkListQuery {
    /// A bare works query targets `/works` directly.
    fn from(query: WorksQuery) -> (r: WorkListQuery) {
        WorkListQuery::Works(query)
    }
}

impl vstd::std_specs::convert::FromSpecImpl<WorksQuery> for WorkListQuery {
    open spec fn obeys_from_spec() -> bool {
        true
    }

    open spec fn from_spec(query: WorksQuery) -> WorkListQuery {
        WorkListQuery::Works(query)
    }
}

impl CrossrefRoute for WorkListQuery {
    open spec fn route_spec(&self) -> Seq<char> {
        match self {
            WorkListQuery::Works(q) => works_query_route_spec(*q),
            WorkListQuery::Combined { primary_component, ident } => combined_route_spec(
                *primary_component,
                *ident,
            ),
        }
    }

    fn route(&self) -> (r: Result<String, ErrorKind>) {
        match self {
            WorkListQuery::Works(q) => q.route(),
            WorkListQuery::Combined { primary_component, ident } => combined_route_str(
                primary_component,
                ident,
            ),
        }
    }
}

/// The capability of a component to carry a combined works query: every
/// parent kind supports this uniformly, so adding a kind takes one
/// mapping arm and no new compiler logic.
pub trait WorksCombiner: Sized {
    /// The primary component of this kind, as the contracts state it.
    spec fn primary_component_spec() -> Component;

    /// Whether `r` is this kind's combined-works variant wrapping the
    /// identifier `id` and the query `q`.
    spec fn wraps_ident(r: Self, id: Seq<char>, q: WorksQuery) -> bool;

    /// The primary component of this kind.
    fn primary_component() -> (c: Component)
        ensures
            c == Self::primary_component_spec(),
    ;

    /// Wraps a bound works query into this kind's combined variant.
    fn ident_query(ident: WorksIdentQuery) -> (r: Self)
        ensures
            Self::wraps_ident(r, ident.id@, ident.query),
    ;

    /// The combined route for a bound works query under this kind.
    fn combined_route(ident: &WorksIdentQuery) -> (r: Result<String, ErrorKind>)
        ensures
            r matches Ok(s) && s@ == combined_route_spec(Self::primary_component_spec(), *ident),
    ;

    /// Wraps a bound works query into a combined `WorkListQuery` under
    /// this kind's primary component.
    fn work_list_query(ident: WorksIdentQuery) -> (r: WorkListQuery)
        ensures
            r matches WorkListQuery::Combined { primary_component, ident: i } && primary_component
                == Self::primary_component_spec() && i == ident,
    ;
}

impl WorksQuery {
    /// An empty query, with no parameter set.
    pub fn empty() -> (r: Self)
        ensures
            works_query_is_empty(r),
    {
        WorksQuery::default()
    }

    /// A query for `len` random DOIs: only the sample size is set.
    pub fn random(len: usize) -> (r: Self)
        ensures
            r.sample == Some(len),
            r.free_form_queries@.len() == 0,
            r.field_queries@.len() == 0,
            r.filter@.len() == 0,
            r.sort is None,
            r.order is None,
            r.elements@.len() == 0,
            r.facets@.len() == 0,
            r.result_control is None,
    {
        WorksQuery::default().sample(len)
    }

    /// A query with a single free-form term.
    pub fn new(query: &str) -> (r: Self)
        ensures
            r.free_form_queries.deep_view() == seq![query@],
            r.field_queries@.len() == 0,
            r.filter@.len() == 0,
            r.sort is None,
            r.order is None,
            r.elements@.len() == 0,
            r.facets@.len() == 0,
            r.result_control is None,
            r.sample is None,
    {
        let r = WorksQuery::empty().query(query);
        proof {
            assert(Seq::<Seq<char>>::empty().push(query@) =~= seq![query@]);
            assert(r.free_form_queries.deep_view() =~= seq![query@]);
        }
        r
    }

    /// Sets the random-sample size; compilation then ignores every other
    /// parameter.
    pub fn sample(self, len: usize) -> (r: Self)
        ensures
            r == (WorksQuery { sample: Some(len), ..self }),
    {
        let mut s = self;
        s.sample = Some(len);
        s
    }

    /// Adds one free-form query term.
    pub fn query(self, query: &str) -> (r: Self)
        ensures
            r.free_form_queries.deep_view() == self.free_form_queries.deep_view().push(query@),
            r.field_queries == self.field_queries,
            r.filter == self.filter,
            r.sort == self.sort,
            r.order == self.order,
            r.elements == self.elements,
            r.facets == self.facets,
            r.result_control == self.result_control,
            r.sample == self.sample,
    {
        let mut s = self;
        let ghost before = s.free_form_queries.deep_view();
        s.free_form_queries.push(query.to_owned());
        proof {
            assert(s.free_form_queries.deep_view() =~= before.push(query@));
        }
        s
    }

    /// Adds several free-form query terms at once.
    pub fn queries(self, queries: &[&str]) -> (r: Self)
        ensures
            r.free_form_queries.deep_view() == self.free_form_queries.deep_view()
                + queries.deep_view(),
            r.field_queries == self.field_queries,
            r.filter == self.filter,
            r.sort == self.sort,
            r.order == self.order,
            r.elements == self.elements,
            r.facets == self.facets,
            r.result_control == self.result_control,
            r.sample == self.sample,
    {
        let mut s = self;
        let ghost before = s.free_form_queries.deep_view();
        let mut i: usize = 0;
        while i < queries.len()
            invariant
                0 <= i <= queries.len(),
                s.free_form_queries.deep_view() == before + queries.deep_view().take(i as int),
                s.field_queries == self.field_queries,
                s.filter == self.filter,
                s.sort == self.sort,
                s.order == self.order,
                s.elements == self.elements,
                s.facets == self.facets,
                s.result_control == self.result_control,
                s.sample == self.sample,
            decreases queries.len() - i,
        {
            let ghost mid = s.free_form_queries.deep_view();
            s.free_form_queries.push(queries[i].to_owned());
            proof {
                assert(s.free_form_queries.deep_view() =~= mid.push(queries.deep_view()[i as int]));
                assert(mid.push(queries.deep_view()[i as int]) =~= before + queries.deep_view().take(
                    i as int + 1,
                ));
            }
            i = i + 1;
        }
        proof {
            assert(queries.deep_view().take(queries.len() as int) =~= queries.deep_view());
        }
        s
    }

    /// Adds a field query.
    pub fn field_query(self, query: FieldQuery) -> (r: Self)
        ensures
            r.field_queries@ == self.field_queries@.push(query),
            r.free_form_queries == self.free_form_queries,
            r.filter == self.filter,
            r.sort == self.sort,
            r.order == self.order,
            r.elements == self.elements,
            r.facets == self.facets,
            r.result_control == self.result_control,
            r.sample == self.sample,
    {
        let mut s = self;
        s.field_queries.push(query);
        s
    }

    /// Selects which metadata elements to return.
    pub fn elements(self, element: Vec<WorkElement>) -> (r: Self)
        ensures
            r.elements@ == self.elements@ + element@,
            r.free_form_queries == self.free_form_queries,
            r.field_queries == self.field_queries,
            r.filter == self.filter,
            r.sort == self.sort,
            r.order == self.order,
            r.facets == self.facets,
            r.result_control == self.result_control,
            r.sample == self.sample,
    {
        let mut s = self;
        let mut element = element;
        s.elements.append(&mut element);
        s
    }

    /// Adds several field queries at once.
    pub fn field_queries(self, queries: Vec<FieldQuery>) -> (r: Self)
        ensures
            r.field_queries@ == self.field_queries@ + queries@,
            r.free_form_queries == self.free_form_queries,
            r.filter == self.filter,
            r.sort == self.sort,
            r.order == self.order,
            r.elements == self.elements,
            r.facets == self.facets,
            r.result_control == self.result_control,
            r.sample == self.sample,
    {
        let mut s = self;
        let mut queries = queries;
        s.field_queries.append(&mut queries);
        s
    }

    /// Adds a filter.
    pub fn filter(self, filter: WorksFilter) -> (r: Self)
        ensures
            r.filter@ == self.filter@.push(filter),
            r.free_form_queries == self.free_form_queries,
            r.field_queries == self.field_queries,
            r.sort == self.sort,
            r.order == self.order,
            r.elements == self.elements,
            r.facets == self.facets,
            r.result_control == self.result_control,
            r.sample == self.sample,
    {
        let mut s = self;
        s.filter.push(filter);
        s
    }

    /// Sets the sort field.
    pub fn sort(self, sort: Sort) -> (r: Self)
        ensures
            r == (WorksQuery { sort: Some(sort), ..self }),
    {
        let mut s = self;
        s.sort = Some(sort);
        s
    }

    /// Sets the order.
    pub fn order(self, order: Order) -> (r: Self)
        ensures
            r == (WorksQuery { order: Some(order), ..self }),
    {
        let mut s = self;
        s.order = Some(order);
        s
    }

    /// Adds a facet request.
    pub fn facet(self, facet: FacetCount) -> (r: Self)
        ensures
            r.facets@ == self.facets@.push(facet),
            r.free_form_queries == self.free_form_queries,
            r.field_queries == self.field_queries,
            r.filter == self.filter,
            r.sort == self.sort,
            r.order == self.order,
            r.elements == self.elements,
            r.result_control == self.result_control,
            r.sample == self.sample,
    {
        let mut s = self;
        s.facets.push(facet);
        s
    }

    /// Continues deep paging with the cursor token Crossref returned.  A
    /// row limit set through a standard `Rows` control is kept; any other
    /// control is dropped.
    pub fn next_cursor(self, cursor: &str) -> (r: Self)
        ensures
            r.result_control matches Some(c) && c matches WorkResultControl::Cursor {
                token: t,
                rows,
            } && t matches Some(ts) && ts@ == cursor@ && rows == (match self.result_control {
                Some(WorkResultControl::Standard(ResultControl::Rows(n))) => Some(n),
                _ => None,
            }),
            r.free_form_queries == self.free_form_queries,
            r.field_queries == self.field_queries,
            r.filter == self.filter,
            r.sort == self.sort,
            r.order == self.order,
            r.elements == self.elements,
            r.facets == self.facets,
            r.sample == self.sample,
    {
        let mut s = self;
        let rows = match &s.result_control {
            Some(WorkResultControl::Standard(ResultControl::Rows(rows))) => Some(*rows),
            _ => None,
        };
        s.result_control = Some(
            WorkResultControl::Cursor { token: Some(cursor.to_owned()), rows },
        );
        s
    }

    /// Starts a new deep-paging session with an empty cursor.
    pub fn new_cursor(self) -> (r: Self)
        ensures
            r == (
            WorksQuery {
                result_control: Some(WorkResultControl::Cursor { token: None, rows: None }),
                ..self
            }),
    {
        let mut s = self;
        s.result_control = Some(WorkResultControl::new_cursor());
        s
    }

    /// Sets the result control.
    pub fn result_control(self, result_control: WorkResultControl) -> (r: Self)
        ensures
            r == (WorksQuery { result_control: Some(result_control), ..self }),
    {
        let mut s = self;
        s.result_control = Some(result_control);
        s
    }

    /// Wraps the query into the combined variant of the component kind
    /// `W`, bound to the item identified by `id`.
    pub fn into_combined<W: WorksCombiner>(self, id: &str) -> (r: W)
        ensures
            W::wraps_ident(r, id@, self),
    {
        W::ident_query(self.into_ident(id))
    }

    /// Binds the query to the identifier of a primary component item.
    pub fn into_ident(self, id: &str) -> (r: WorksIdentQuery)
        ensures
            r.id@ == id@,
            r.query == self,
    {
        WorksIdentQuery::new(id, self)
    }

    /// Wraps the query into a combined `WorkListQuery` under the primary
    /// component of the kind `W`.
    pub fn into_combined_query<W: WorksCombiner>(self, id: &str) -> (r: WorkListQuery)
        ensures
            r matches WorkListQuery::Combined { primary_component, ident } && primary_component
                == W::primary_component_spec() && ident.id@ == id@ && ident.query == self,
    {
        W::work_list_query(self.into_ident(id))
    }
}

impl CrossrefParams for WorksQuery {
    type Filter = WorksFilter;

    open spec fn query_terms_spec(&self) -> Seq<String> {
        self.free_form_queries@
    }

    open spec fn filters_spec(&self) -> Seq<WorksFilter> {
        self.filter@
    }

    open spec fn sort_spec(&self) -> Option<Sort> {
        self.sort
    }

    open spec fn order_spec(&self) -> Option<Order> {
        self.order
    }

    open spec fn facets_spec(&self) -> Seq<FacetCount> {
        self.facets@
    }

    open spec fn result_control_spec(&self) -> Option<ResultControl> {
        match self.result_control {
            Some(WorkResultControl::Standard(s)) => Some(s),
            _ => None,
        }
    }

    fn query_terms(&self) -> (r: &[String]) {
        self.free_form_queries.as_slice()
    }

    fn filters(&self) -> (r: &[WorksFilter]) {
        self.filter.as_slice()
    }

    fn sort(&self) -> (r: Option<&Sort>) {
        match &self.sort {
            Some(s) => Some(s),
            None => None,
        }
    }

    fn order(&self) -> (r: Option<&Order>) {
        match &self.order {
            Some(o) => Some(o),
            None => None,
        }
    }

    fn facets(&self) -> (r: &[FacetCount]) {
        self.facets.as_slice()
    }

    fn result_control(&self) -> (r: Option<&ResultControl>) {
        match &self.result_control {
            Some(WorkResultControl::Standard(s)) => Some(s),
            _ => None,
        }
    }
}


} // verus!
