use crate::error::GovernanceError;
use crate::instructions::common::str_eq;
use crate::instructions::common::TimestampUpdatable;
use crate::AccountId;
use vstd::prelude::*;
use vstd::utf8::encode_utf8;

verus! {

/// Most documents the registry holds.
pub const MAX_RULE_DOCUMENTS: usize = 100;

/// Longest accepted rule category, in bytes.
pub const MAX_CATEGORY_LENGTH: usize = 50;

/// Longest accepted rule title, in bytes.
pub const MAX_TITLE_LENGTH: usize = 200;

/// Longest accepted rule URL, in bytes.
pub const MAX_URL_LENGTH: usize = 500;

/// Longest accepted rule hash, in bytes.
pub const MAX_HASH_LENGTH: usize = 64;

/// One versioned rule document: a categorized title pointing at an external
/// text, pinned by its hash.
#[derive(Debug, PartialEq)]
pub struct RuleDocument {
    /// Rule category.
    pub category: String,
    /// Rule title.
    pub title: String,
    /// Where the document text lives.
    pub url: String,
    /// Content hash of the document text.
    pub hash: String,
    /// Creation time.
    pub created_at: i64,
    /// Last update time.
    pub updated_at: i64,
}

impl Clone for RuleDocument {
    /// A clone carries the same text and times.
    fn clone(&self) -> (r: Self)
        ensures
            r.category@ == self.category@,
            r.title@ == self.title@,
            r.url@ == self.url@,
            r.hash@ == self.hash@,
            r.created_at == self.created_at,
            r.updated_at == self.updated_at,
    {
        RuleDocument {
            category: self.category.clone(),
            title: self.title.clone(),
            url: self.url.clone(),
            hash: self.hash.clone(),
            created_at: self.created_at,
            updated_at: self.updated_at,
        }
    }
}

impl RuleDocument {
    /// Length bounds every stored document satisfies.
    pub open spec fn wf(self) -> bool {
        &&& encode_utf8(self.category@).len() <= MAX_CATEGORY_LENGTH
        &&& encode_utf8(self.title@).len() <= MAX_TITLE_LENGTH
        &&& encode_utf8(self.url@).len() <= MAX_URL_LENGTH
        &&& encode_utf8(self.hash@).len() <= MAX_HASH_LENGTH
    }

    /// Build a document stamped with the supplied time, rejecting any field
    /// over its length bound.
    pub fn new(category: String, title: String, url: String, hash: String, now: i64) -> (r: Result<
        Self,
        GovernanceError,
    >)
        ensures
            match r {
                Ok(d) => {
                    &&& d.wf()
                    &&& d == (RuleDocument {
                        category,
                        title,
                        url,
                        hash,
                        created_at: now,
                        updated_at: now,
                    })
                },
                Err(GovernanceError::InvalidCategoryLength) => encode_utf8(category@).len()
                    > MAX_CATEGORY_LENGTH,
                Err(GovernanceError::InvalidTitleLength) => encode_utf8(category@).len()
                    <= MAX_CATEGORY_LENGTH && encode_utf8(title@).len() > MAX_TITLE_LENGTH,
                Err(GovernanceError::InvalidUrlLength) => encode_utf8(category@).len()
                    <= MAX_CATEGORY_LENGTH && encode_utf8(title@).len() <= MAX_TITLE_LENGTH
                    && encode_utf8(url@).len() > MAX_URL_LENGTH,
                Err(GovernanceError::InvalidHashLength) => encode_utf8(category@).len()
                    <= MAX_CATEGORY_LENGTH && encode_utf8(title@).len() <= MAX_TITLE_LENGTH
                    && encode_utf8(url@).len() <= MAX_URL_LENGTH && encode_utf8(hash@).len()
                    > MAX_HASH_LENGTH,
                Err(_) => false,
            },
    {
        if category.as_str().as_bytes().len() > MAX_CATEGORY_LENGTH {
            return Err(GovernanceError::InvalidCategoryLength);
        }
        if title.as_str().as_bytes().len() > MAX_TITLE_LENGTH {
            return Err(GovernanceError::InvalidTitleLength);
        }
        if url.as_str().as_bytes().len() > MAX_URL_LENGTH {
            return Err(GovernanceError::InvalidUrlLength);
        }
        if hash.as_str().as_bytes().len() > MAX_HASH_LENGTH {
            return Err(GovernanceError::InvalidHashLength);
        }
        Ok(RuleDocument { category, title, url, hash, created_at: now, updated_at: now })
    }

    /// The URL starts with an accepted scheme.
    pub fn validate_url(&self) -> (r: bool)
        ensures
            r == crate::instructions::common::spec_valid_url(self.url@),
    {
        crate::instructions::common::validate_url(self.url.as_str())
    }

    /// The hash is 64 hexadecimal digits.
    pub fn validate_hash(&self) -> (r: bool)
        ensures
            r == crate::instructions::common::spec_valid_hash(self.hash@),
    {
        crate::instructions::common::validate_hash(self.hash.as_str())
    }
}

/// Two documents collide when they share category and title.
pub open spec fn spec_same_key(a: RuleDocument, b: RuleDocument) -> bool {
    a.category@ == b.category@ && a.title@ == b.title@
}

/// The documents holding `cat`, in registry order.
pub open spec fn spec_docs_with_category(docs: Seq<RuleDocument>, cat: Seq<char>) -> Seq<
    RuleDocument,
>
    decreases docs.len(),
{
    if docs.len() == 0 {
        Seq::empty()
    } else {
        let rest = spec_docs_with_category(docs.drop_last(), cat);
        if docs.last().category@ == cat {
            rest.push(docs.last())
        } else {
            rest
        }
    }
}

/// The versioned list of rule documents, owned by the governance authority.
#[derive(Debug)]
pub struct RuleRegistry {
    /// Administrator identity.
    pub authority: AccountId,
    /// The documents, in insertion order.
    pub rule_documents: Vec<RuleDocument>,
    /// Last update time.
    pub last_updated: i64,
    /// Bumped by every mutation.
    pub version: u32,
    /// Creation time.
    pub created_at: i64,
}

impl RuleRegistry {
    /// Structural invariant: bounded size, well-formed documents, and no two
    /// documents sharing category and title.
    pub open spec fn wf(self) -> bool {
        &&& self.rule_documents@.len() <= MAX_RULE_DOCUMENTS
        &&& forall|i: int| 0 <= i < self.rule_documents@.len() ==> self.rule_documents@[i].wf()
        &&& forall|i: int, j: int|
            0 <= i < self.rule_documents@.len() && 0 <= j < self.rule_documents@.len() && i != j
                ==> !spec_same_key(self.rule_documents@[i], self.rule_documents@[j])
    }

    /// Append a document. Fails when the registry is full or a document with
    /// the same category and title exists.
    pub fn add_document(&mut self, document: RuleDocument, now: i64) -> (r: Result<
        (),
        GovernanceError,
    >)
        requires
            old(self).wf(),
            document.wf(),
            old(self).version < u32::MAX,
        ensures
            final(self).wf(),
            r is Ok <==> (old(self).rule_documents@.len() < MAX_RULE_DOCUMENTS && (forall|i: int|
                0 <= i < old(self).rule_documents@.len() ==> !spec_same_key(
                    old(self).rule_documents@[i],
                    document,
                ))),
            r is Ok ==> *final(self) == (RuleRegistry {
                rule_documents: final (self).rule_documents,
                version: (old(self).version + 1) as u32,
                last_updated: now,
                ..*old(self)
            }) && final (self).rule_documents@ == old(self).rule_documents@.push(document),
            old(self).rule_documents@.len() >= MAX_RULE_DOCUMENTS ==> r == Err::<
                (),
                GovernanceError,
            >(GovernanceError::TooManyRuleDocuments),
            old(self).rule_documents@.len() < MAX_RULE_DOCUMENTS && !(forall|i: int|
                0 <= i < old(self).rule_documents@.len() ==> !spec_same_key(
                    #[trigger] old(self).rule_documents@[i],
                    document,
                )) ==> r == Err::<(), GovernanceError>(GovernanceError::DuplicateRuleDocument),
            r is Err ==> *final(self) == *old(self),
    {
        if self.rule_documents.len() >= MAX_RULE_DOCUMENTS {
            return Err(GovernanceError::TooManyRuleDocuments);
        }
        let mut i: usize = 0;
        while i < self.rule_documents.len()
            invariant
                *self == *old(self),
                old(self).wf(),
                document.wf(),
                old(self).version < u32::MAX,
                old(self).rule_documents@.len() < MAX_RULE_DOCUMENTS,
                i <= self.rule_documents@.len(),
                forall|k: int| 0 <= k < i ==> !spec_same_key(self.rule_documents@[k], document),
            decreases self.rule_documents@.len() - i,
        {
            let existing = &self.rule_documents[i];
            if str_eq(existing.category.as_str(), document.category.as_str()) && str_eq(
                existing.title.as_str(),
                document.title.as_str(),
            ) {
                return Err(GovernanceError::DuplicateRuleDocument);
            }
            i = i + 1;
        }
        self.rule_documents.push(document);
        self.version = self.version + 1;
        self.last_updated = now;
        Ok(())
    }

    /// Replace the URL and/or hash of the document at `index`, stamping it
    /// with the supplied time. Fails when the index is out of range or a new
    /// field is over its length bound, and then changes nothing.
    pub fn update_document(
        &mut self,
        index: usize,
        new_url: Option<String>,
        new_hash: Option<String>,
        now: i64,
    ) -> (r: Result<(), GovernanceError>)
        requires
            old(self).wf(),
            old(self).version < u32::MAX,
        ensures
            final(self).wf(),
            r is Ok <==> (index < old(self).rule_documents@.len() && (match new_url {
                Some(u) => encode_utf8(u@).len() <= MAX_URL_LENGTH,
                None => true,
            }) && (match new_hash {
                Some(h) => encode_utf8(h@).len() <= MAX_HASH_LENGTH,
                None => true,
            })),
            r is Ok ==> ({
                let docs = old(self).rule_documents@;
                let updated = final (self).rule_documents@;
                &&& *final(self) == (RuleRegistry {
                    rule_documents: final (self).rule_documents,
                    version: (old(self).version + 1) as u32,
                    last_updated: now,
                    ..*old(self)
                })
                &&& updated.len() == docs.len()
                &&& forall|k: int| 0 <= k < docs.len() && k != index ==> updated[k] == docs[k]
                &&& updated[index as int].category@ == docs[index as int].category@
                &&& updated[index as int].title@ == docs[index as int].title@
                &&& updated[index as int].url@ == (match new_url {
                    Some(u) => u@,
                    None => docs[index as int].url@,
                })
                &&& updated[index as int].hash@ == (match new_hash {
                    Some(h) => h@,
                    None => docs[index as int].hash@,
                })
                &&& updated[index as int].created_at == docs[index as int].created_at
                &&& updated[index as int].updated_at == now
            }),
            r is Err ==> *final(self) == *old(self),
            index >= old(self).rule_documents@.len() ==> r == Err::<(), GovernanceError>(
                GovernanceError::RuleDocumentNotFound,
            ),
            index < old(self).rule_documents@.len() && (match new_url {
                Some(u) => encode_utf8(u@).len() > MAX_URL_LENGTH,
                None => false,
            }) ==> r == Err::<(), GovernanceError>(GovernanceError::InvalidUrlLength),
            index < old(self).rule_documents@.len() && (match new_url {
                Some(u) => encode_utf8(u@).len() <= MAX_URL_LENGTH,
                None => true,
            }) && (match new_hash {
                Some(h) => encode_utf8(h@).len() > MAX_HASH_LENGTH,
                None => false,
            }) ==> r == Err::<(), GovernanceError>(GovernanceError::InvalidHashLength),
    {
        if index >= self.rule_documents.len() {
            return Err(GovernanceError::RuleDocumentNotFound);
        }
        match &new_url {
            Some(u) => {
                if u.as_str().as_bytes().len() > MAX_URL_LENGTH {
                    return Err(GovernanceError::InvalidUrlLength);
                }
            },
            None => {},
        }
        match &new_hash {
            Some(h) => {
                if h.as_str().as_bytes().len() > MAX_HASH_LENGTH {
                    return Err(GovernanceError::InvalidHashLength);
                }
            },
            None => {},
        }
        let doc = &self.rule_documents[index];
        let updated = RuleDocument {
            category: doc.category.clone(),
            title: doc.title.clone(),
            url: match new_url {
                Some(u) => u,
                None => doc.url.clone(),
            },
            hash: match new_hash {
                Some(h) => h,
                None => doc.hash.clone(),
            },
            created_at: doc.created_at,
            updated_at: now,
        };
        self.rule_documents[index] = updated;
        self.version = self.version + 1;
        self.last_updated = now;
        proof {
            let docs = old(self).rule_documents@;
            let upd = self.rule_documents@;
            assert forall|k: int| 0 <= k < upd.len() implies upd[k].wf() by {
                if k != index {
                    assert(upd[k] == docs[k]);
                }
            }
            assert forall|a: int, b: int|
                0 <= a < upd.len() && 0 <= b < upd.len() && a != b implies !spec_same_key(
                upd[a],
                upd[b],
            ) by {
                assert(!spec_same_key(docs[a], docs[b]));
                assert(upd[a].category@ == docs[a].category@ && upd[a].title@ == docs[a].title@);
                assert(upd[b].category@ == docs[b].category@ && upd[b].title@ == docs[b].title@);
            }
        }
        Ok(())
    }

    /// Remove the document at `index`, shifting the rest down. Fails when
    /// the index is out of range.
    pub fn remove_document(&mut self, index: usize, now: i64) -> (r: Result<(), GovernanceError>)
        requires
            old(self).wf(),
            old(self).version < u32::MAX,
        ensures
            final(self).wf(),
            r is Ok <==> index < old(self).rule_documents@.len(),
            r is Ok ==> *final(self) == (RuleRegistry {
                rule_documents: final (self).rule_documents,
                version: (old(self).version + 1) as u32,
                last_updated: now,
                ..*old(self)
            }) && final (self).rule_documents@ == old(self).rule_documents@.remove(index as int),
            r is Err ==> r == Err::<(), GovernanceError>(GovernanceError::RuleDocumentNotFound)
                && *final(self) == *old(self),
    {
        if index >= self.rule_documents.len() {
            return Err(GovernanceError::RuleDocumentNotFound);
        }
        self.rule_documents.remove(index);
        self.version = self.version + 1;
        self.last_updated = now;
        Ok(())
    }

    /// The documents in `category`, in registry order.
    pub fn find_documents_by_category(&self, category: &str) -> (r: Vec<&RuleDocument>)
        ensures
            r@.len() == spec_docs_with_category(self.rule_documents@, category@).len(),
            forall|k: int|
                0 <= k < r@.len() ==> *r@[k] == spec_docs_with_category(
                    self.rule_documents@,
                    category@,
                )[k],
    {
        let mut r: Vec<&RuleDocument> = Vec::new();
        let mut i: usize = 0;
        while i < self.rule_documents.len()
            invariant
                i <= self.rule_documents@.len(),
                r@.len() == spec_docs_with_category(
                    self.rule_documents@.take(i as int),
                    category@,
                ).len(),
                forall|k: int|
                    0 <= k < r@.len() ==> *r@[k] == spec_docs_with_category(
                        self.rule_documents@.take(i as int),
                        category@,
                    )[k],
            decreases self.rule_documents@.len() - i,
        {
            proof {
                let s = self.rule_documents@;
                assert(s.take(i + 1).drop_last() =~= s.take(i as int));
                assert(s.take(i + 1).last() == s[i as int]);
            }
            let doc = &self.rule_documents[i];
            if str_eq(doc.category.as_str(), category) {
                r.push(doc);
            }
            i = i + 1;
        }
        proof {
            assert(self.rule_documents@.take(self.rule_documents@.len() as int)
                =~= self.rule_documents@);
        }
        r
    }

    /// The document at `index` exists and carries exactly `expected_hash`.
    pub fn verify_document_hash(&self, index: usize, expected_hash: &str) -> (r: bool)
        ensures
            r == (index < self.rule_documents@.len() && self.rule_documents@[index as int].hash@
                == expected_hash@),
    {
        if index < self.rule_documents.len() {
            str_eq(self.rule_documents[index].hash.as_str(), expected_hash)
        } else {
            false
        }
    }
}

impl TimestampUpdatable for RuleRegistry {
    open spec fn spec_updated_at(&self) -> i64 {
        self.last_updated
    }

    fn set_updated_at(&mut self, timestamp: i64) {
        self.last_updated = timestamp;
    }
}

/// Predefined rule categories, with a catch-all for anything else.
#[derive(Debug, PartialEq, Eq)]
pub enum RuleCategory {
    /// Product standards.
    ProductStandards,
    /// Trading rules.
    TradingRules,
    /// Violation definitions.
    ViolationDefinitions,
    /// Dispute resolution process.
    DisputeResolution,
    /// Platform policies.
    PlatformPolicies,
    /// Any other category, by its label.
    Other(String),
}

impl RuleCategory {
    /// The category's canonical label.
    pub open spec fn spec_label(self) -> Seq<char> {
        match self {
            RuleCategory::ProductStandards => "product_standards"@,
            RuleCategory::TradingRules => "trading_rules"@,
            RuleCategory::ViolationDefinitions => "violation_definitions"@,
            RuleCategory::DisputeResolution => "dispute_resolution"@,
            RuleCategory::PlatformPolicies => "platform_policies"@,
            RuleCategory::Other(s) => s@,
        }
    }

    /// The category's canonical label.
    pub fn to_string(&self) -> (r: String)
        ensures
            r@ == self.spec_label(),
    {
        match self {
            RuleCategory::ProductStandards => "product_standards".to_owned(),
            RuleCategory::TradingRules => "trading_rules".to_owned(),
            RuleCategory::ViolationDefinitions => "violation_definitions".to_owned(),
            RuleCategory::DisputeResolution => "dispute_resolution".to_owned(),
            RuleCategory::PlatformPolicies => "platform_policies".to_owned(),
            RuleCategory::Other(s) => s.clone(),
        }
    }

    /// Parse a label back into its category; an unknown label lands in
    /// `Other` unchanged.
    pub fn from_string(s: &str) -> (r: Self)
        ensures
            s@ == "product_standards"@ ==> r == RuleCategory::ProductStandards,
            s@ == "trading_rules"@ ==> r == RuleCategory::TradingRules,
            s@ == "violation_definitions"@ ==> r == RuleCategory::ViolationDefinitions,
            s@ == "dispute_resolution"@ ==> r == RuleCategory::DisputeResolution,
            s@ == "platform_policies"@ ==> r == RuleCategory::PlatformPolicies,
            r.spec_label() == s@,
    {
        proof {
            reveal_strlit("product_standards");
            reveal_strlit("trading_rules");
            reveal_strlit("violation_definitions");
            reveal_strlit("dispute_resolution");
            reveal_strlit("platform_policies");
            assert("product_standards"@.len() == 17);
            assert("trading_rules"@.len() == 13);
            assert("violation_definitions"@.len() == 21);
            assert("dispute_resolution"@.len() == 18);
            assert("platform_policies"@.len() == 17);
            assert("product_standards"@[1] == 'r');
            assert("platform_policies"@[1] == 'l');
        }
        if str_eq(s, "product_standards") {
            RuleCategory::ProductStandards
        } else if str_eq(s, "trading_rules") {
            RuleCategory::TradingRules
        } else if str_eq(s, "violation_definitions") {
            RuleCategory::ViolationDefinitions
        } else if str_eq(s, "dispute_resolution") {
            RuleCategory::DisputeResolution
        } else if str_eq(s, "platform_policies") {
            RuleCategory::PlatformPolicies
        } else {
            RuleCategory::Other(s.to_owned())
        }
    }
}

/// Label of the product-standards category.
pub const PRODUCT_STANDARDS: &'static str = "product_standards";

/// Label of the trading-rules category.
pub const TRADING_RULES: &'static str = "trading_rules";

/// Label of the violation-definitions category.
pub const VIOLATION_DEFINITIONS: &'static str = "violation_definitions";

/// Label of the dispute-resolution category.
pub const DISPUTE_RESOLUTION: &'static str = "dispute_resolution";

/// Label of the platform-policies category.
pub const PLATFORM_POLICIES: &'static str = "platform_policies";

} // verus!
