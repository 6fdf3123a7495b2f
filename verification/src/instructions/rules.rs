use crate::error::GovernanceError;
use crate::instructions::common::spec_valid_hash;
use crate::instructions::common::spec_valid_url;
use crate::instructions::common::validate_hash;
use crate::instructions::common::validate_url;
use crate::state::governance::GovernanceConfig;
use crate::state::rules::spec_docs_with_category;
use crate::state::rules::spec_same_key;
use crate::state::rules::RuleDocument;
use crate::state::rules::RuleRegistry;
use crate::state::rules::MAX_CATEGORY_LENGTH;
use crate::state::rules::MAX_HASH_LENGTH;
use crate::state::rules::MAX_RULE_DOCUMENTS;
use crate::state::rules::MAX_TITLE_LENGTH;
use crate::state::rules::MAX_URL_LENGTH;
use crate::AccountId;
use vstd::prelude::*;
use vstd::utf8::encode_utf8;

verus! {

/// Create the rule registry on the authority's behalf: an empty versioned
/// document list owned by the governance authority.
pub fn create_rule_registry(
    governance_config: &GovernanceConfig,
    authority: AccountId,
    now: i64,
) -> (r: Result<RuleRegistry, GovernanceError>)
    ensures
        r is Ok <==> authority == governance_config.authority,
        r matches Ok(reg) ==> {
            &&& reg.wf()
            &&& reg.authority == governance_config.authority
            &&& reg.rule_documents@.len() == 0
            &&& reg.last_updated == now
            &&& reg.version == 1
            &&& reg.created_at == now
        },
        r is Err ==> r == Err::<RuleRegistry, GovernanceError>(GovernanceError::Unauthorized),
{
    if authority != governance_config.authority {
        return Err(GovernanceError::Unauthorized);
    }
    Ok(
        RuleRegistry {
            authority: governance_config.authority,
            rule_documents: Vec::new(),
            last_updated: now,
            version: 1,
            created_at: now,
        },
    )
}

/// Add a rule document on the authority's behalf: the texts must fit their
/// length bounds, the URL must use an accepted scheme, the hash must be 64
/// hexadecimal digits, and no document with the same category and title may
/// exist.
pub fn add_rule_document(
    rule_registry: &mut RuleRegistry,
    governance_config: &GovernanceConfig,
    authority: AccountId,
    category: String,
    title: String,
    url: String,
    hash: String,
    now: i64,
) -> (r: Result<(), GovernanceError>)
    requires
        old(rule_registry).wf(),
        old(rule_registry).version < u32::MAX,
    ensures
        final(rule_registry).wf(),
        r is Err ==> *final(rule_registry) == *old(rule_registry),
        authority != governance_config.authority ==> r == Err::<(), GovernanceError>(
            GovernanceError::Unauthorized,
        ),
        ({
            let doc = RuleDocument { category, title, url, hash, created_at: now, updated_at: now };
            let no_dup = forall|i: int|
                0 <= i < old(rule_registry).rule_documents@.len() ==> !spec_same_key(
                    #[trigger] old(rule_registry).rule_documents@[i],
                    doc,
                );
            &&& r is Ok <==> (authority == governance_config.authority && doc.wf()
                && spec_valid_url(url@) && spec_valid_hash(hash@) && old(
                rule_registry,
            ).rule_documents@.len() < MAX_RULE_DOCUMENTS && no_dup)
            &&& r is Ok ==> {
                &&& final (rule_registry).rule_documents@ == old(
                    rule_registry,
                ).rule_documents@.push(doc)
                &&& *final(rule_registry) == (RuleRegistry {
                    rule_documents: final (rule_registry).rule_documents,
                    version: (old(rule_registry).version + 1) as u32,
                    last_updated: now,
                    ..*old(rule_registry)
                })
            }
            &&& authority == governance_config.authority && encode_utf8(category@).len()
                > MAX_CATEGORY_LENGTH ==> r == Err::<(), GovernanceError>(
                GovernanceError::InvalidCategoryLength,
            )
            &&& authority == governance_config.authority && encode_utf8(category@).len()
                <= MAX_CATEGORY_LENGTH && encode_utf8(title@).len() > MAX_TITLE_LENGTH ==> r
                == Err::<(), GovernanceError>(GovernanceError::InvalidTitleLength)
            &&& authority == governance_config.authority && encode_utf8(category@).len()
                <= MAX_CATEGORY_LENGTH && encode_utf8(title@).len() <= MAX_TITLE_LENGTH
                && encode_utf8(url@).len() > MAX_URL_LENGTH ==> r == Err::<(), GovernanceError>(
                GovernanceError::InvalidUrlLength,
            )
            &&& authority == governance_config.authority && encode_utf8(category@).len()
                <= MAX_CATEGORY_LENGTH && encode_utf8(title@).len() <= MAX_TITLE_LENGTH
                && encode_utf8(url@).len() <= MAX_URL_LENGTH && encode_utf8(hash@).len()
                > MAX_HASH_LENGTH ==> r == Err::<(), GovernanceError>(
                GovernanceError::InvalidHashLength,
            )
            &&& authority == governance_config.authority && doc.wf() && !spec_valid_url(url@)
                ==> r == Err::<(), GovernanceError>(GovernanceError::InvalidUrlFormat)
            &&& authority == governance_config.authority && doc.wf() && spec_valid_url(url@)
                && !spec_valid_hash(hash@) ==> r == Err::<(), GovernanceError>(
                GovernanceError::InvalidHashFormat,
            )
            &&& authority == governance_config.authority && doc.wf() && spec_valid_url(url@)
                && spec_valid_hash(hash@) && old(rule_registry).rule_documents@.len()
                >= MAX_RULE_DOCUMENTS ==> r == Err::<(), GovernanceError>(
                GovernanceError::TooManyRuleDocuments,
            )
            &&& authority == governance_config.authority && doc.wf() && spec_valid_url(url@)
                && spec_valid_hash(hash@) && old(rule_registry).rule_documents@.len()
                < MAX_RULE_DOCUMENTS && !no_dup ==> r == Err::<(), GovernanceError>(
                GovernanceError::DuplicateRuleDocument,
            )
        }),
{
    if authority != governance_config.authority {
        return Err(GovernanceError::Unauthorized);
    }
    let document = match RuleDocument::new(category, title, url, hash, now) {
        Ok(d) => d,
        Err(e) => {
            return Err(e);
        },
    };
    if !document.validate_url() {
        return Err(GovernanceError::InvalidUrlFormat);
    }
    if !document.validate_hash() {
        return Err(GovernanceError::InvalidHashFormat);
    }
    rule_registry.add_document(document, now)
}

/// Update a rule document's URL and/or hash on the authority's behalf; a
/// new URL must use an accepted scheme and a new hash must be 64
/// hexadecimal digits.
pub fn update_rule_document(
    rule_registry: &mut RuleRegistry,
    governance_config: &GovernanceConfig,
    authority: AccountId,
    document_index: u32,
    new_url: Option<String>,
    new_hash: Option<String>,
    now: i64,
) -> (r: Result<(), GovernanceError>)
    requires
        old(rule_registry).wf(),
        old(rule_registry).version < u32::MAX,
    ensures
        final(rule_registry).wf(),
        r is Err ==> *final(rule_registry) == *old(rule_registry),
        authority != governance_config.authority ==> r == Err::<(), GovernanceError>(
            GovernanceError::Unauthorized,
        ),
        r is Ok <==> (authority == governance_config.authority && (match new_url {
            Some(u) => spec_valid_url(u@) && encode_utf8(u@).len() <= MAX_URL_LENGTH,
            None => true,
        }) && (match new_hash {
            Some(h) => spec_valid_hash(h@),
            None => true,
        }) && document_index < old(rule_registry).rule_documents@.len()),
        r is Ok ==> ({
            let docs = old(rule_registry).rule_documents@;
            let updated = final (rule_registry).rule_documents@;
            let index = document_index as int;
            &&& *final(rule_registry) == (RuleRegistry {
                rule_documents: final (rule_registry).rule_documents,
                version: (old(rule_registry).version + 1) as u32,
                last_updated: now,
                ..*old(rule_registry)
            })
            &&& updated.len() == docs.len()
            &&& forall|k: int| 0 <= k < docs.len() && k != index ==> updated[k] == docs[k]
            &&& updated[index].category@ == docs[index].category@
            &&& updated[index].title@ == docs[index].title@
            &&& updated[index].url@ == (match new_url {
                Some(u) => u@,
                None => docs[index].url@,
            })
            &&& updated[index].hash@ == (match new_hash {
                Some(h) => h@,
                None => docs[index].hash@,
            })
            &&& updated[index].created_at == docs[index].created_at
            &&& updated[index].updated_at == now
        }),
{
    if authority != governance_config.authority {
        return Err(GovernanceError::Unauthorized);
    }
    match &new_url {
        Some(u) => {
            if !validate_url(u.as_str()) {
                return Err(GovernanceError::InvalidUrlFormat);
            }
        },
        None => {},
    }
    match &new_hash {
        Some(h) => {
            if !validate_hash(h.as_str()) {
                return Err(GovernanceError::InvalidHashFormat);
            }
        },
        None => {},
    }
    rule_registry.update_document(document_index as usize, new_url, new_hash, now)
}

/// Remove a rule document on the authority's behalf.
pub fn remove_rule_document(
    rule_registry: &mut RuleRegistry,
    governance_config: &GovernanceConfig,
    authority: AccountId,
    document_index: u32,
    now: i64,
) -> (r: Result<(), GovernanceError>)
    requires
        old(rule_registry).wf(),
        old(rule_registry).version < u32::MAX,
    ensures
        final(rule_registry).wf(),
        r is Err ==> *final(rule_registry) == *old(rule_registry),
        authority != governance_config.authority ==> r == Err::<(), GovernanceError>(
            GovernanceError::Unauthorized,
        ),
        r is Ok <==> (authority == governance_config.authority && document_index < old(
            rule_registry,
        ).rule_documents@.len()),
        r is Ok ==> *final(rule_registry) == (RuleRegistry {
            rule_documents: final (rule_registry).rule_documents,
            version: (old(rule_registry).version + 1) as u32,
            last_updated: now,
            ..*old(rule_registry)
        }) && final (rule_registry).rule_documents@ == old(
            rule_registry,
        ).rule_documents@.remove(document_index as int),
        authority == governance_config.authority && document_index >= old(
            rule_registry,
        ).rule_documents@.len() ==> r == Err::<(), GovernanceError>(
            GovernanceError::RuleDocumentNotFound,
        ),
{
    if authority != governance_config.authority {
        return Err(GovernanceError::Unauthorized);
    }
    rule_registry.remove_document(document_index as usize, now)
}

/// A copy of every rule document, in registry order.
pub fn get_rule_documents(rule_registry: &RuleRegistry) -> (r: Vec<RuleDocument>)
    ensures
        r@.len() == rule_registry.rule_documents@.len(),
        forall|k: int|
            #![trigger r@[k]]
            0 <= k < r@.len() ==> {
                &&& r@[k].category@ == rule_registry.rule_documents@[k].category@
                &&& r@[k].title@ == rule_registry.rule_documents@[k].title@
                &&& r@[k].url@ == rule_registry.rule_documents@[k].url@
                &&& r@[k].hash@ == rule_registry.rule_documents@[k].hash@
                &&& r@[k].created_at == rule_registry.rule_documents@[k].created_at
                &&& r@[k].updated_at == rule_registry.rule_documents@[k].updated_at
            },
{
    let mut r: Vec<RuleDocument> = Vec::new();
    let mut i: usize = 0;
    while i < rule_registry.rule_documents.len()
        invariant
            i <= rule_registry.rule_documents@.len(),
            r@.len() == i,
            forall|k: int|
                #![trigger r@[k]]
                0 <= k < i ==> {
                    &&& r@[k].category@ == rule_registry.rule_documents@[k].category@
                    &&& r@[k].title@ == rule_registry.rule_documents@[k].title@
                    &&& r@[k].url@ == rule_registry.rule_documents@[k].url@
                    &&& r@[k].hash@ == rule_registry.rule_documents@[k].hash@
                    &&& r@[k].created_at == rule_registry.rule_documents@[k].created_at
                    &&& r@[k].updated_at == rule_registry.rule_documents@[k].updated_at
                },
        decreases rule_registry.rule_documents@.len() - i,
    {
        r.push(rule_registry.rule_documents[i].clone());
        i = i + 1;
    }
    r
}

/// The document at `document_index` exists and carries exactly
/// `expected_hash`.
pub fn verify_rule_document(
    rule_registry: &RuleRegistry,
    document_index: u32,
    expected_hash: String,
) -> (r: Result<bool, GovernanceError>)
    ensures
        r is Ok,
        r matches Ok(b) ==> b == (document_index < rule_registry.rule_documents@.len()
            && rule_registry.rule_documents@[document_index as int].hash@ == expected_hash@),
{
    Ok(rule_registry.verify_document_hash(document_index as usize, expected_hash.as_str()))
}

/// A copy of every rule document in `category`, in registry order.
pub fn find_documents_by_category(rule_registry: &RuleRegistry, category: String) -> (r: Result<
    Vec<RuleDocument>,
    GovernanceError,
>)
    ensures
        r is Ok,
        r matches Ok(docs) ==> ({
            let matching = spec_docs_with_category(rule_registry.rule_documents@, category@);
            &&& docs@.len() == matching.len()
            &&& forall|k: int|
                #![trigger docs@[k]]
                0 <= k < docs@.len() ==> {
                    &&& docs@[k].category@ == matching[k].category@
                    &&& docs@[k].title@ == matching[k].title@
                    &&& docs@[k].url@ == matching[k].url@
                    &&& docs@[k].hash@ == matching[k].hash@
                    &&& docs@[k].created_at == matching[k].created_at
                    &&& docs@[k].updated_at == matching[k].updated_at
                }
        }),
{
    let refs = rule_registry.find_documents_by_category(category.as_str());
    let mut out: Vec<RuleDocument> = Vec::new();
    let mut i: usize = 0;
    let ghost matching = spec_docs_with_category(rule_registry.rule_documents@, category@);
    while i < refs.len()
        invariant
            i <= refs@.len(),
            refs@.len() == matching.len(),
            forall|k: int| 0 <= k < refs@.len() ==> *refs@[k] == matching[k],
            out@.len() == i,
            forall|k: int|
                #![trigger out@[k]]
                0 <= k < i ==> {
                    &&& out@[k].category@ == matching[k].category@
                    &&& out@[k].title@ == matching[k].title@
                    &&& out@[k].url@ == matching[k].url@
                    &&& out@[k].hash@ == matching[k].hash@
                    &&& out@[k].created_at == matching[k].created_at
                    &&& out@[k].updated_at == matching[k].updated_at
                },
        decreases refs@.len() - i,
    {
        out.push(refs[i].clone());
        i = i + 1;
    }
    Ok(out)
}

} // verus!
