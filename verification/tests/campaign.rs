use soroban_loyalty::address::Address;
use soroban_loyalty::campaign::{
    Call, Campaign, CampaignContract, DataKey, Event, Reply, Role, UpgradeProposal, TIMELOCK,
};
use soroban_loyalty::error::Error;
use soroban_loyalty::invocation::{Event as AnyEvent, Invocation, Published};
use soroban_sdk::{Bytes, Env, TryFromVal, Val};

const CONTRACT: Address = Address { id: 1 };
const WASM_HASH: [u8; 32] = [0u8; 32];

/// A campaign contract whose invocations every generated account authorizes.
struct Client {
    host: Env,
    now: u64,
    contract: CampaignContract,
    accounts: Vec<Address>,
    events: Vec<Published>,
}

impl Client {
    fn blank() -> Client {
        Client {
            host: Env::default(),
            now: 0,
            contract: CampaignContract::new(),
            accounts: Vec::new(),
            events: Vec::new(),
        }
    }

    fn generate(&mut self) -> Address {
        let account = Address { id: 100 + self.accounts.len() as u64 };
        self.accounts.push(account);
        account
    }

    fn invocation(&self, signers: Vec<Address>) -> Invocation {
        Invocation::new(self.host.clone(), CONTRACT, self.now, signers)
    }

    fn signed_by(&mut self, signers: Vec<Address>, call: Call) -> Result<Reply, Error> {
        let mut invocation = self.invocation(signers);
        let result = self.contract.execute(&mut invocation, call);
        self.events.append(&mut invocation.events);
        result
    }

    fn call(&mut self, call: Call) -> Result<Reply, Error> {
        let signers = self.accounts.clone();
        self.signed_by(signers, call)
    }

    fn admins(&self, admins: &[Address]) -> soroban_sdk::Vec<u64> {
        let mut ids = soroban_sdk::Vec::new(&self.host);
        for admin in admins {
            ids.push_back(admin.id);
        }
        ids
    }

    fn create_with(
        &mut self,
        merchant: Address,
        reward_amount: i128,
        expiration: u64,
        name: Bytes,
        description: Bytes,
    ) -> Result<u64, Error> {
        let call =
            Call::CreateCampaign { merchant, reward_amount, expiration, name, description };
        match self.call(call) {
            Ok(Reply::CampaignId(id)) => Ok(id),
            Ok(_) => panic!("no campaign id"),
            Err(error) => Err(error),
        }
    }

    fn create(&mut self, merchant: Address, reward: i128, expiration: u64) -> Result<u64, Error> {
        let (name, description) = (name(&self.host), desc(&self.host));
        self.create_with(merchant, reward, expiration, name, description)
    }

    fn campaign(&self, id: u64) -> Campaign {
        ok(self.contract.get_campaign(id))
    }

    fn is_active(&self, id: u64) -> bool {
        ok(self.contract.is_active(&self.invocation(Vec::new()), id))
    }

    fn event(&self, at: usize) -> &Event {
        assert_eq!(self.events[at].contract, CONTRACT);
        match &self.events[at].event {
            AnyEvent::Campaign(event) => event,
            _ => panic!("not an event of the campaign contract"),
        }
    }

    fn last_topic(&self) -> &'static str {
        self.event(self.events.len() - 1).topic()
    }
}

fn ok<T>(result: Result<T, Error>) -> T {
    match result {
        Ok(value) => value,
        Err(error) => panic!("{}", error.message()),
    }
}

fn error<T>(result: Result<T, Error>) -> Error {
    match result {
        Ok(_) => panic!("not refused"),
        Err(error) => error,
    }
}

fn setup() -> (Client, Address, Address) {
    let mut client = Client::blank();
    let admin1 = client.generate();
    let admin2 = client.generate();
    let admins = client.admins(&[admin1, admin2]);
    ok(client.call(Call::Initialize { admins, threshold: 2 }));
    (client, admin1, admin2)
}

fn name(env: &Env) -> Bytes {
    Bytes::from_slice(env, b"Summer Sale")
}

fn desc(env: &Env) -> Bytes {
    Bytes::from_slice(env, b"Earn LYT on every purchase this summer")
}

/// A host vector whose second item is no id.
fn malformed(env: &Env, first: u64) -> soroban_sdk::Vec<u64> {
    let mut items: soroban_sdk::Vec<Val> = soroban_sdk::Vec::new(env);
    items.push_back(soroban_sdk::IntoVal::into_val(&first, env));
    items.push_back(soroban_sdk::IntoVal::into_val(&true, env));
    match soroban_sdk::Vec::<u64>::try_from_val(env, &items.to_val()) {
        Ok(vector) => vector,
        Err(_) => panic!("not a vector"),
    }
}

#[test]
fn test_initial_roles_granted_to_admins() {
    let (client, admin1, admin2) = setup();
    assert!(client.contract.has_role_view(Role::Admin, admin1));
    assert!(client.contract.has_role_view(Role::Pauser, admin1));
    assert!(client.contract.has_role_view(Role::Admin, admin2));
    assert!(client.contract.has_role_view(Role::Pauser, admin2));
}

#[test]
fn lib_test_grant_role_emits_event() {
    let (mut client, admin, _admin2) = setup();
    let recorder = client.generate();
    ok(client.call(Call::GrantRole { admin, role: Role::Recorder, account: recorder }));
    assert!(client.contract.has_role_view(Role::Recorder, recorder));
    assert_eq!(client.last_topic(), "ROLE_GRT");
}

#[test]
fn lib_test_revoke_role_emits_event() {
    let (mut client, admin, _admin2) = setup();
    let recorder = client.generate();
    ok(client.call(Call::GrantRole { admin, role: Role::Recorder, account: recorder }));
    ok(client.call(Call::RevokeRole { admin, role: Role::Recorder, account: recorder }));
    assert!(!client.contract.has_role_view(Role::Recorder, recorder));
    assert_eq!(client.last_topic(), "ROLE_REV");
}

#[test]
#[should_panic(expected = "missing role")]
fn lib_test_grant_role_requires_admin() {
    let (mut client, _admin1, _admin2) = setup();
    let non_admin = client.generate();
    let target = client.generate();
    ok(client.call(Call::GrantRole { admin: non_admin, role: Role::Recorder, account: target }));
}

#[test]
#[should_panic(expected = "missing role")]
fn lib_test_revoke_role_requires_admin() {
    let (mut client, admin1, _admin2) = setup();
    let non_admin = client.generate();
    ok(client.call(Call::RevokeRole { admin: non_admin, role: Role::Pauser, account: admin1 }));
}

#[test]
fn test_record_claim_requires_recorder_role() {
    let (mut client, admin, _admin2) = setup();
    let merchant = client.generate();
    let recorder = client.generate();
    let expiry = client.now + 86400;
    let id = ok(client.create(merchant, 100, expiry));

    ok(client.call(Call::GrantRole { admin, role: Role::Recorder, account: recorder }));
    ok(client.call(Call::RecordClaim { recorder, campaign_id: id }));
    assert_eq!(client.campaign(id).total_claimed, 1);
}

#[test]
#[should_panic(expected = "missing role")]
fn test_record_claim_without_recorder_role_rejected() {
    let (mut client, _admin1, _admin2) = setup();
    let merchant = client.generate();
    let non_recorder = client.generate();
    let expiry = client.now + 86400;
    let id = ok(client.create(merchant, 100, expiry));
    ok(client.call(Call::RecordClaim { recorder: non_recorder, campaign_id: id }));
}

#[test]
fn test_pause_blocks_create_campaign() {
    let (mut client, admin1, _admin2) = setup();
    let merchant = client.generate();
    let expiry = client.now + 86400;
    ok(client.call(Call::Pause { pauser: admin1 }));
    let result = client.create(merchant, 100, expiry);
    assert!(result.is_err());
    assert_eq!(result, Err(Error::ContractPaused));
}

#[test]
fn test_unpause_allows_create_campaign() {
    let (mut client, admin1, _admin2) = setup();
    let merchant = client.generate();
    let expiry = client.now + 86400;
    ok(client.call(Call::Pause { pauser: admin1 }));
    ok(client.call(Call::Unpause { pauser: admin1 }));
    let id = ok(client.create(merchant, 100, expiry));
    assert_eq!(id, 1);
}

#[test]
#[should_panic(expected = "missing role")]
fn lib_test_pause_requires_pauser_role() {
    let (mut client, _admin1, _admin2) = setup();
    let non_pauser = client.generate();
    ok(client.call(Call::Pause { pauser: non_pauser }));
}

#[test]
fn test_create_campaign() {
    let (mut client, _admin1, _admin2) = setup();
    let merchant = client.generate();
    let expiry = client.now + 86400;
    let id = ok(client.create(merchant, 100, expiry));
    assert_eq!(id, 1);
    let c = client.campaign(id);
    assert_eq!(c.merchant, merchant);
    assert_eq!(c.reward_amount, 100);
    assert!(c.active);
    assert_eq!(c.name, name(&client.host));
    assert_eq!(c.description, desc(&client.host));
}

#[test]
fn test_get_campaign_metadata() {
    let (mut client, _admin1, _admin2) = setup();
    let merchant = client.generate();
    let expiry = client.now + 86400;
    let id = ok(client.create(merchant, 100, expiry));
    let (n, d) = ok(client.contract.get_campaign_metadata(id));
    assert_eq!(n, name(&client.host));
    assert_eq!(d, desc(&client.host));
}

#[test]
#[should_panic(expected = "name exceeds 64 bytes")]
fn test_name_too_long() {
    let (mut client, _admin1, _admin2) = setup();
    let merchant = client.generate();
    let expiry = client.now + 86400;
    let long_name = Bytes::from_slice(&client.host, &[b'x'; 65]);
    let description = desc(&client.host);
    ok(client.create_with(merchant, 100, expiry, long_name, description));
}

#[test]
#[should_panic(expected = "description exceeds 256 bytes")]
fn test_description_too_long() {
    let (mut client, _admin1, _admin2) = setup();
    let merchant = client.generate();
    let expiry = client.now + 86400;
    let long_desc = Bytes::from_slice(&client.host, &[b'd'; 257]);
    let name = name(&client.host);
    ok(client.create_with(merchant, 100, expiry, name, long_desc));
}

#[test]
#[should_panic(expected = "expiration must be in the future")]
fn test_expired_campaign_rejected() {
    let (mut client, _admin1, _admin2) = setup();
    let merchant = client.generate();
    ok(client.create(merchant, 100, 0));
}

#[test]
fn test_set_active_emits_deactivated_event() {
    let (mut client, _admin1, _admin2) = setup();
    let merchant = client.generate();
    let expiry = client.now + 86400;
    let id = ok(client.create(merchant, 100, expiry));
    ok(client.call(Call::SetActive { campaign_id: id, active: false }));
    assert!(!client.campaign(id).active);

    assert_eq!(client.events.len(), 2);
    assert_eq!(client.event(0).topic(), "CAM_CRT");
    assert_eq!(client.event(1).topic(), "CAM_DEACT");
    assert_eq!(client.event(1).label(), Some("id"));
    match client.event(1) {
        Event::Deactivated { id: campaign_id, merchant: owner } => {
            assert_eq!(*campaign_id, id);
            assert_eq!(*owner, merchant);
        }
        _ => panic!("another event"),
    }
}

#[test]
fn test_is_active_after_expiry() {
    let (mut client, _admin1, _admin2) = setup();
    let merchant = client.generate();
    let expiry = client.now + 10;
    let id = ok(client.create(merchant, 100, expiry));
    assert!(client.is_active(id));

    client.now = expiry + 1;
    assert!(!client.is_active(id));
}

#[test]
fn test_upgrade_flow() {
    let (mut client, admin1, admin2) = setup();

    ok(client.call(Call::ProposeUpgrade { admin: admin1, wasm_hash: WASM_HASH }));
    ok(client.call(Call::AuthorizeUpgrade { admin: admin2 }));

    client.now += TIMELOCK + 1;
    let reply = ok(client.call(Call::ExecuteUpgrade { admin: admin1 }));
    assert!(matches!(reply, Reply::Upgrade(wasm_hash) if wasm_hash == WASM_HASH));
}

#[test]
#[should_panic(expected = "timelock not met")]
fn test_upgrade_timelock_enforced() {
    let (mut client, admin1, admin2) = setup();

    ok(client.call(Call::ProposeUpgrade { admin: admin1, wasm_hash: WASM_HASH }));
    ok(client.call(Call::AuthorizeUpgrade { admin: admin2 }));
    ok(client.call(Call::ExecuteUpgrade { admin: admin1 }));
}

#[test]
#[should_panic(expected = "insufficient authorizations")]
fn test_upgrade_threshold_enforced() {
    let (mut client, admin1, _admin2) = setup();

    ok(client.call(Call::ProposeUpgrade { admin: admin1, wasm_hash: WASM_HASH }));
    client.now += TIMELOCK + 1;
    ok(client.call(Call::ExecuteUpgrade { admin: admin1 }));
}

#[test]
fn test_cancel_upgrade() {
    let (mut client, admin1, _admin2) = setup();

    ok(client.call(Call::ProposeUpgrade { admin: admin1, wasm_hash: WASM_HASH }));
    ok(client.call(Call::CancelUpgrade { admin: admin1 }));
    ok(client.call(Call::ProposeUpgrade { admin: admin1, wasm_hash: WASM_HASH }));
}

#[test]
#[should_panic(expected = "missing role")]
fn test_propose_upgrade_requires_admin() {
    let (mut client, _admin1, _admin2) = setup();
    let non_admin = client.generate();
    ok(client.call(Call::ProposeUpgrade { admin: non_admin, wasm_hash: WASM_HASH }));
}

#[test]
fn initialization_checks_its_admins() {
    let mut client = Client::blank();
    let admin = client.generate();
    let one = client.admins(&[admin]);
    assert_eq!(
        error(client.call(Call::Initialize { admins: one.clone(), threshold: 0 })),
        Error::ThresholdNotPositive
    );
    assert_eq!(
        error(client.call(Call::Initialize { admins: one.clone(), threshold: 2 })),
        Error::InsufficientAdmins
    );
    let nobody = client.admins(&[]);
    assert_eq!(
        error(client.call(Call::Initialize { admins: nobody, threshold: 1 })),
        Error::InsufficientAdmins
    );
    let admins = malformed(&client.host, admin.id);
    assert_eq!(
        error(client.call(Call::Initialize { admins, threshold: 1 })),
        Error::MalformedAddress
    );
    assert!(!client.contract.has_role_view(Role::Admin, admin));
    ok(client.call(Call::Initialize { admins: one.clone(), threshold: 1 }));
    assert!(client.contract.has_role_view(Role::Admin, admin));
    assert!(!client.contract.has_role_view(Role::Recorder, admin));
    assert_eq!(client.contract.threshold, Some(1));
    assert_eq!(
        error(client.call(Call::Initialize { admins: one, threshold: 1 })),
        Error::AlreadyInitialized
    );
}

#[test]
fn ids_are_consecutive() {
    let (mut client, _admin1, _admin2) = setup();
    let merchant = client.generate();
    for id in 1..5 {
        assert_eq!(client.create(merchant, 100, 10), Ok(id));
        assert_eq!(client.campaign(id).id, id);
    }
    assert_eq!(client.contract.next_id, Some(5));
    assert!(client.contract.get_campaign(5).is_err());
}

#[test]
fn ids_start_again_when_initialized_late() {
    let mut client = Client::blank();
    let merchant = client.generate();
    assert_eq!(client.create(merchant, 100, 10), Ok(1));
    let admins = client.admins(&[merchant]);
    ok(client.call(Call::Initialize { admins, threshold: 1 }));
    assert_eq!(client.create(merchant, 7, 10), Ok(1));
    assert_eq!(client.campaign(1).reward_amount, 7);
}

#[test]
fn campaigns_are_checked() {
    let (mut client, _admin1, _admin2) = setup();
    let merchant = client.generate();
    client.now = 50;
    assert_eq!(client.create(merchant, 0, 100), Err(Error::RewardNotPositive));
    assert_eq!(client.create(merchant, -1, 100), Err(Error::RewardNotPositive));
    assert_eq!(client.create(merchant, 1, 50), Err(Error::ExpirationNotInFuture));
    assert_eq!(client.create(merchant, 1, 51), Ok(1));
    let c = client.campaign(1);
    assert_eq!((c.created_at, c.expiration, c.total_claimed), (50, 51, 0));
}

#[test]
fn texts_may_be_as_long_as_allowed() {
    let (mut client, _admin1, _admin2) = setup();
    let merchant = client.generate();
    let name = Bytes::from_slice(&client.host, &[b'n'; 64]);
    let description = Bytes::from_slice(&client.host, &[b'd'; 256]);
    let id = ok(client.create_with(merchant, 1, 10, name.clone(), description.clone()));
    assert_eq!(client.campaign(id).name, name);
    assert_eq!(client.campaign(id).description, description);
    match client.event(0) {
        Event::Created { id: created, merchant: owner, name: n, description: d } => {
            assert_eq!((*created, *owner), (id, merchant));
            assert_eq!((n, d), (&name, &description));
        }
        _ => panic!("another event"),
    }
}

#[test]
fn the_last_id_is_not_handed_out() {
    let (mut client, _admin1, _admin2) = setup();
    let merchant = client.generate();
    client.contract.next_id = Some(u64::MAX - 1);
    assert_eq!(client.create(merchant, 1, 10), Ok(u64::MAX - 1));
    assert_eq!(client.create(merchant, 1, 10), Err(Error::ArithmeticOverflow));
    assert!(client.contract.get_campaign(u64::MAX).is_err());
}

#[test]
fn missing_campaigns_are_reported() {
    let (mut client, admin, _admin2) = setup();
    assert_eq!(error(client.contract.get_campaign(1)), Error::CampaignNotFound);
    assert_eq!(error(client.contract.get_campaign_metadata(1)), Error::CampaignNotFound);
    let invocation = client.invocation(Vec::new());
    assert_eq!(client.contract.is_active(&invocation, 1), Err(Error::CampaignNotFound));
    assert_eq!(
        error(client.call(Call::SetActive { campaign_id: 1, active: true })),
        Error::CampaignNotFound
    );
    ok(client.call(Call::GrantRole { admin, role: Role::Recorder, account: admin }));
    assert_eq!(
        error(client.call(Call::RecordClaim { recorder: admin, campaign_id: 1 })),
        Error::CampaignNotFound
    );
}

#[test]
fn claims_are_counted_up_to_the_last_number() {
    let (mut client, admin, _admin2) = setup();
    let merchant = client.generate();
    let id = ok(client.create(merchant, 100, 10));
    ok(client.call(Call::GrantRole { admin, role: Role::Recorder, account: admin }));
    let mut campaign = client.campaign(id);
    campaign.total_claimed = u64::MAX - 1;
    client.contract.campaigns.set(id, campaign);
    ok(client.call(Call::RecordClaim { recorder: admin, campaign_id: id }));
    assert_eq!(client.campaign(id).total_claimed, u64::MAX);
    assert_eq!(
        error(client.call(Call::RecordClaim { recorder: admin, campaign_id: id })),
        Error::Overflow
    );
}

#[test]
fn only_the_merchant_switches_a_campaign() {
    let (mut client, admin1, _admin2) = setup();
    let merchant = client.generate();
    let id = ok(client.create(merchant, 100, 10));
    let stop = Call::SetActive { campaign_id: id, active: false };
    assert_eq!(client.contract.signer(&stop), Some(merchant));
    assert_eq!(error(client.signed_by(vec![admin1], stop)), Error::NotAuthorized);
    assert!(client.is_active(id));
    ok(client.signed_by(vec![merchant], Call::SetActive { campaign_id: id, active: false }));
    assert!(!client.is_active(id));
    let published = client.events.len();
    ok(client.signed_by(vec![merchant], Call::SetActive { campaign_id: id, active: true }));
    assert!(client.is_active(id));
    assert_eq!(client.events.len(), published);
    let c = client.campaign(id);
    assert_eq!((c.merchant, c.reward_amount, c.expiration), (merchant, 100, 10));
}

#[test]
fn campaigns_end_at_their_expiration() {
    let (mut client, _admin1, _admin2) = setup();
    let merchant = client.generate();
    let id = ok(client.create(merchant, 100, 10));
    client.now = 9;
    assert!(client.is_active(id));
    client.now = 10;
    assert!(!client.is_active(id));
    ok(client.call(Call::SetActive { campaign_id: id, active: true }));
    assert!(!client.is_active(id));
}

#[test]
fn campaign_calls_need_their_author() {
    let (mut client, admin, _admin2) = setup();
    let merchant = client.generate();
    let (name, description) = (name(&client.host), desc(&client.host));
    let calls = vec![
        Call::GrantRole { admin, role: Role::Recorder, account: merchant },
        Call::RevokeRole { admin, role: Role::Pauser, account: admin },
        Call::Pause { pauser: admin },
        Call::Unpause { pauser: admin },
        Call::CreateCampaign { merchant, reward_amount: 1, expiration: 10, name, description },
        Call::RecordClaim { recorder: admin, campaign_id: 1 },
        Call::ProposeUpgrade { admin, wasm_hash: WASM_HASH },
        Call::AuthorizeUpgrade { admin },
        Call::ExecuteUpgrade { admin },
        Call::CancelUpgrade { admin },
    ];
    for call in calls {
        assert!(client.contract.signer(&call).is_some());
        assert_eq!(error(client.signed_by(Vec::new(), call)), Error::NotAuthorized);
    }
    assert_eq!(client.events.len(), 0);
    assert!(!client.contract.is_paused());
}

#[test]
fn pausing_is_announced() {
    let (mut client, admin1, admin2) = setup();
    ok(client.call(Call::Pause { pauser: admin1 }));
    assert!(client.contract.is_paused());
    assert_eq!(client.last_topic(), "PAUSED");
    ok(client.call(Call::Unpause { pauser: admin2 }));
    assert!(!client.contract.is_paused());
    assert_eq!(client.last_topic(), "UNPAUSED");
}

#[test]
fn only_one_upgrade_waits() {
    let (mut client, admin1, admin2) = setup();
    assert_eq!(
        error(client.call(Call::AuthorizeUpgrade { admin: admin2 })),
        Error::NoPendingProposal
    );
    assert_eq!(
        error(client.call(Call::ExecuteUpgrade { admin: admin2 })),
        Error::NoPendingProposal
    );
    ok(client.call(Call::ProposeUpgrade { admin: admin1, wasm_hash: [7; 32] }));
    assert_eq!(client.last_topic(), "UPG_PROP");
    assert_eq!(
        error(client.call(Call::ProposeUpgrade { admin: admin2, wasm_hash: [8; 32] })),
        Error::UpgradeAlreadyProposed
    );
    let proposal = client.contract.proposal.as_ref().unwrap();
    assert_eq!(proposal.wasm_hash, [7; 32]);
    assert_eq!(proposal.signatures.len(), 1);
    assert_eq!(proposal.signatures.get(0), Some(admin1.id));
}

#[test]
fn admins_sign_once() {
    let (mut client, admin1, admin2) = setup();
    ok(client.call(Call::ProposeUpgrade { admin: admin1, wasm_hash: WASM_HASH }));
    assert_eq!(
        error(client.call(Call::AuthorizeUpgrade { admin: admin1 })),
        Error::AlreadyAuthorized
    );
    ok(client.call(Call::AuthorizeUpgrade { admin: admin2 }));
    assert_eq!(client.last_topic(), "UPG_AUTH");
    assert_eq!(
        error(client.call(Call::AuthorizeUpgrade { admin: admin2 })),
        Error::AlreadyAuthorized
    );
    let proposal = client.contract.proposal.as_ref().unwrap();
    assert_eq!(proposal.signatures.len(), 2);
    assert_eq!(proposal.signatures.get(0), Some(admin1.id));
    assert_eq!(proposal.signatures.get(1), Some(admin2.id));
}

#[test]
fn malformed_signatures_are_refused() {
    let (mut client, admin1, admin2) = setup();
    let signatures = malformed(&client.host, admin1.id);
    client.contract.proposal =
        Some(UpgradeProposal { wasm_hash: WASM_HASH, proposed_at: 0, signatures });
    assert_eq!(
        error(client.call(Call::AuthorizeUpgrade { admin: admin1 })),
        Error::AlreadyAuthorized
    );
    assert_eq!(
        error(client.call(Call::AuthorizeUpgrade { admin: admin2 })),
        Error::MalformedAddress
    );
    assert_eq!(client.contract.proposal.as_ref().unwrap().signatures.len(), 2);
}

#[test]
fn upgrades_wait_exactly_48_hours() {
    let (mut client, admin1, admin2) = setup();
    client.now = 1_000;
    ok(client.call(Call::ProposeUpgrade { admin: admin1, wasm_hash: [9; 32] }));
    ok(client.call(Call::AuthorizeUpgrade { admin: admin2 }));
    client.now = 1_000 + 172_800 - 1;
    assert_eq!(
        error(client.call(Call::ExecuteUpgrade { admin: admin2 })),
        Error::TimelockNotMet
    );
    client.now = 1_000 + 172_800;
    let reply = ok(client.call(Call::ExecuteUpgrade { admin: admin2 }));
    assert!(matches!(reply, Reply::Upgrade(wasm_hash) if wasm_hash == [9; 32]));
    assert_eq!(client.last_topic(), "UPG_EXEC");
    assert!(client.contract.proposal.is_none());
    assert_eq!(
        error(client.call(Call::ExecuteUpgrade { admin: admin2 })),
        Error::NoPendingProposal
    );
}

#[test]
fn upgrades_need_a_threshold_and_a_deadline() {
    let (mut client, admin1, admin2) = setup();
    client.now = u64::MAX - 172_800 + 1;
    ok(client.call(Call::ProposeUpgrade { admin: admin1, wasm_hash: WASM_HASH }));
    ok(client.call(Call::AuthorizeUpgrade { admin: admin2 }));
    client.now = u64::MAX;
    assert_eq!(
        error(client.call(Call::ExecuteUpgrade { admin: admin1 })),
        Error::ArithmeticOverflow
    );
    client.contract.threshold = None;
    assert_eq!(
        error(client.call(Call::ExecuteUpgrade { admin: admin1 })),
        Error::NotInitialized
    );
}

#[test]
fn any_admin_proposes_after_cancelling() {
    let (mut client, admin1, admin2) = setup();
    ok(client.call(Call::ProposeUpgrade { admin: admin1, wasm_hash: [1; 32] }));
    ok(client.call(Call::CancelUpgrade { admin: admin1 }));
    client.now = 77;
    ok(client.call(Call::ProposeUpgrade { admin: admin2, wasm_hash: [2; 32] }));
    let proposal = client.contract.proposal.as_ref().unwrap();
    assert_eq!((proposal.wasm_hash, proposal.proposed_at), ([2; 32], 77));
    assert_eq!(proposal.signatures.len(), 1);
    assert_eq!(proposal.signatures.get(0), Some(admin2.id));
}

#[test]
fn campaign_events_are_labelled() {
    let host = Env::default();
    let a = Address { id: 1 };
    let created =
        Event::Created { id: 1, merchant: a, name: name(&host), description: desc(&host) };
    assert_eq!(created.label(), Some("id"));
    assert_eq!(Event::Deactivated { id: 1, merchant: a }.label(), Some("id"));
    let unlabelled = [
        Event::RoleGranted { role: Role::Admin, admin: a, account: a },
        Event::RoleRevoked { role: Role::Admin, admin: a, account: a },
        Event::Paused { pauser: a },
        Event::Unpaused { pauser: a },
        Event::UpgradeProposed { wasm_hash: WASM_HASH, admin: a },
        Event::UpgradeAuthorized { admin: a },
        Event::UpgradeExecuted { wasm_hash: WASM_HASH },
        Event::UpgradeCancelled { admin: a },
    ];
    for event in unlabelled {
        assert_eq!(event.label(), None);
    }
}

#[test]
fn cancelling_needs_no_proposal() {
    let (mut client, admin1, _admin2) = setup();
    ok(client.call(Call::CancelUpgrade { admin: admin1 }));
    assert_eq!(client.last_topic(), "UPG_CNCL");
}

#[test]
fn a_revoked_admin_has_no_say() {
    let (mut client, admin1, admin2) = setup();
    ok(client.call(Call::RevokeRole { admin: admin1, role: Role::Admin, account: admin2 }));
    assert_eq!(
        error(client.call(Call::ProposeUpgrade { admin: admin2, wasm_hash: WASM_HASH })),
        Error::MissingRole
    );
    ok(client.call(Call::Pause { pauser: admin2 }));
}

#[test]
fn campaign_footprints_name_the_entries() {
    let (mut client, admin1, admin2) = setup();
    let merchant = client.generate();
    assert_eq!(client.create(merchant, 100, 10), Ok(1));
    let admins = client.admins(&[admin1, admin2]);
    assert_eq!(
        client.contract.footprint(&Call::Initialize { admins, threshold: 1 }),
        vec![
            DataKey::RoleMember(Role::Admin, admin1),
            DataKey::RoleMember(Role::Pauser, admin1),
            DataKey::RoleMember(Role::Admin, admin2),
            DataKey::RoleMember(Role::Pauser, admin2),
            DataKey::Paused,
            DataKey::Threshold,
            DataKey::NextId,
        ]
    );
    let (name, description) = (name(&client.host), desc(&client.host));
    let create =
        Call::CreateCampaign { merchant, reward_amount: 1, expiration: 1, name, description };
    assert_eq!(
        client.contract.footprint(&create),
        vec![DataKey::Paused, DataKey::NextId, DataKey::Campaign(2)]
    );
    assert_eq!(
        client.contract.footprint(&Call::ExecuteUpgrade { admin: admin1 }),
        vec![
            DataKey::RoleMember(Role::Admin, admin1),
            DataKey::UpgradeProposal,
            DataKey::Threshold
        ]
    );
}

#[test]
fn footprints_of_a_count_suffice() {
    let (mut client, admin, _admin2) = setup();
    let merchant = client.generate();
    let id = ok(client.create(merchant, 100, 10));
    let mut partial = CampaignContract::new();
    partial.members.set((Role::Recorder, admin), true);
    partial.campaigns.set(id, client.campaign(id));
    let mut invocation = client.invocation(vec![admin]);
    ok(partial.record_claim(&mut invocation, admin, id));
    ok(client.call(Call::GrantRole { admin, role: Role::Recorder, account: admin }));
    ok(client.call(Call::RecordClaim { recorder: admin, campaign_id: id }));
    let (a, b) = (ok(partial.get_campaign(id)), client.campaign(id));
    assert_eq!((a.id, a.total_claimed), (b.id, b.total_claimed));
    assert_eq!(a.total_claimed, 1);
}

#[test]
fn campaign_methods_do_what_calls_do() {
    let host = Env::default();
    let admin = Address { id: 7 };
    let other = Address { id: 8 };
    let mut contract = CampaignContract::new();
    let mut invocation = Invocation::new(host.clone(), CONTRACT, 5, vec![admin, other]);
    let mut admins = soroban_sdk::Vec::new(&host);
    admins.push_back(admin.id);
    ok(contract.initialize(&mut invocation, admins, 1));
    ok(contract.grant_role(&mut invocation, admin, Role::Recorder, other));
    let id =
        ok(contract.create_campaign(&mut invocation, admin, 3, 6, name(&host), desc(&host)));
    ok(contract.record_claim(&mut invocation, other, id));
    ok(contract.set_active(&mut invocation, id, false));
    ok(contract.revoke_role(&mut invocation, admin, Role::Recorder, other));
    ok(contract.pause(&mut invocation, admin));
    ok(contract.unpause(&mut invocation, admin));
    ok(contract.propose_upgrade(&mut invocation, admin, [1; 32]));
    ok(contract.cancel_upgrade(&mut invocation, admin));
    ok(contract.grant_role(&mut invocation, admin, Role::Admin, other));
    ok(contract.propose_upgrade(&mut invocation, admin, [2; 32]));
    ok(contract.authorize_upgrade(&mut invocation, other));
    invocation.now += TIMELOCK;
    assert_eq!(contract.execute_upgrade(&mut invocation, admin), Ok([2; 32]));
    assert_eq!(ok(contract.get_campaign(id)).total_claimed, 1);
    assert_eq!(contract.is_active(&invocation, id), Ok(false));
    assert_eq!(invocation.events.len(), 12);
}
