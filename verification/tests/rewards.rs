use soroban_loyalty::address::Address;
use soroban_loyalty::campaign::{self, CampaignContract};
use soroban_loyalty::error::Error;
use soroban_loyalty::invocation::{Event as AnyEvent, Invocation, Published};
use soroban_loyalty::rewards::{
    Answer, Call, Campaign, DataKey, Event, Grant, RewardsContract, Role, Stage,
};
use soroban_loyalty::token::{self, TokenContract};
use soroban_sdk::{Bytes, Env};

const TOKEN: Address = Address { id: 1 };
const CAMPAIGNS: Address = Address { id: 2 };
const REWARDS: Address = Address { id: 3 };

/// The three contracts, whose invocations every generated account authorizes.
struct Setup {
    host: Env,
    now: u64,
    admin: Address,
    accounts: Vec<Address>,
    token: TokenContract,
    campaigns: CampaignContract,
    rewards: RewardsContract,
    events: Vec<Published>,
}

impl Setup {
    fn generate(&mut self) -> Address {
        let account = Address { id: 100 + self.accounts.len() as u64 };
        self.accounts.push(account);
        account
    }

    fn invocation(&self, contract: Address) -> Invocation {
        Invocation::new(self.host.clone(), contract, self.now, self.accounts.clone())
    }

    fn token(&mut self, call: token::Call) -> Result<(), Error> {
        let mut invocation = self.invocation(TOKEN);
        let result = self.token.execute(&mut invocation, call);
        self.events.append(&mut invocation.events);
        result
    }

    fn campaigns(&mut self, call: campaign::Call) -> Result<campaign::Reply, Error> {
        let mut invocation = self.invocation(CAMPAIGNS);
        let result = self.campaigns.execute(&mut invocation, call);
        self.events.append(&mut invocation.events);
        result
    }

    fn rewards(&mut self, call: Call) -> Result<(), Error> {
        let mut invocation = self.invocation(REWARDS);
        let result = self.rewards.execute(&mut invocation, call);
        self.events.append(&mut invocation.events);
        result
    }

    fn claim_signed_by(
        &mut self,
        signers: Vec<Address>,
        user: Address,
        campaign_id: u64,
    ) -> Result<(), Error> {
        let mut invocation = Invocation::new(self.host.clone(), REWARDS, self.now, signers);
        let result = self.rewards.claim_reward(
            &mut invocation,
            &mut self.campaigns,
            &mut self.token,
            user,
            campaign_id,
        );
        assert_eq!(invocation.contract, REWARDS);
        self.events.append(&mut invocation.events);
        result
    }

    fn claim_reward(&mut self, user: Address, campaign_id: u64) -> Result<(), Error> {
        let signers = self.accounts.clone();
        self.claim_signed_by(signers, user, campaign_id)
    }

    fn redeem_reward(&mut self, user: Address, amount: i128) -> Result<(), Error> {
        let mut invocation = self.invocation(REWARDS);
        let result = self.rewards.redeem_reward(&mut invocation, &mut self.token, user, amount);
        self.events.append(&mut invocation.events);
        result
    }

    fn create(&mut self, merchant: Address, reward_amount: i128, expiration: u64) -> u64 {
        let name = Bytes::from_slice(&self.host, b"Test Campaign");
        let description = Bytes::from_slice(&self.host, b"Test description");
        let call = campaign::Call::CreateCampaign {
            merchant,
            reward_amount,
            expiration,
            name,
            description,
        };
        match ok(self.campaigns(call)) {
            campaign::Reply::CampaignId(id) => id,
            _ => panic!("no campaign id"),
        }
    }

    fn claimed(&self, campaign_id: u64) -> u64 {
        ok(self.campaigns.get_campaign(campaign_id)).total_claimed
    }

    fn own_events(&self) -> Vec<Event> {
        let mut own = Vec::new();
        for published in &self.events {
            if published.contract == REWARDS {
                match &published.event {
                    AnyEvent::Rewards(event) => own.push(*event),
                    _ => panic!("an event of another contract"),
                }
            }
        }
        own
    }
}

fn ok<T>(result: Result<T, Error>) -> T {
    match result {
        Ok(value) => value,
        Err(error) => panic!("{}", error.message()),
    }
}

fn setup() -> Setup {
    let host = Env::default();
    let mut t = Setup {
        host,
        now: 0,
        admin: Address { id: 0 },
        accounts: Vec::new(),
        token: TokenContract::new(),
        campaigns: CampaignContract::new(),
        rewards: RewardsContract::new(),
        events: Vec::new(),
    };
    let admin = t.generate();
    t.admin = admin;
    ok(t.token(token::Call::Initialize {
        admin,
        name: b"LoyaltyToken".to_vec(),
        symbol: b"LYT".to_vec(),
        decimals: 7,
    }));
    let mut admins = soroban_sdk::Vec::new(&t.host);
    admins.push_back(admin.id);
    ok(t.campaigns(campaign::Call::Initialize { admins, threshold: 1 }));
    ok(t.rewards(Call::Initialize {
        admin,
        token_contract: TOKEN,
        campaign_contract: CAMPAIGNS,
    }));
    ok(t.token(token::Call::GrantRole { admin, role: token::Role::Minter, account: REWARDS }));
    ok(t.token(token::Call::RevokeRole { admin, role: token::Role::Minter, account: admin }));
    ok(t.campaigns(campaign::Call::GrantRole {
        admin,
        role: campaign::Role::Recorder,
        account: REWARDS,
    }));
    t
}

fn make_campaign(t: &mut Setup, merchant: Address, reward: i128) -> u64 {
    let expiry = t.now + 86400;
    t.create(merchant, reward, expiry)
}

#[test]
fn lib_test_initial_roles_granted_to_admin() {
    let t = setup();
    assert!(t.rewards.has_role_view(Role::Admin, t.admin));
    assert!(t.rewards.has_role_view(Role::Pauser, t.admin));
}

#[test]
fn rewards_test_grant_role_emits_event() {
    let mut t = setup();
    let pauser = t.generate();
    let admin = t.admin;
    ok(t.rewards(Call::GrantRole { admin, role: Role::Pauser, account: pauser }));
    assert!(t.rewards.has_role_view(Role::Pauser, pauser));
    assert_eq!(
        t.own_events(),
        vec![Event::RoleGranted { role: Role::Pauser, admin, account: pauser }]
    );
    assert_eq!(t.own_events()[0].topic(), "ROLE_GRT");
}

#[test]
fn rewards_test_revoke_role_emits_event() {
    let mut t = setup();
    let pauser = t.generate();
    let admin = t.admin;
    ok(t.rewards(Call::GrantRole { admin, role: Role::Pauser, account: pauser }));
    ok(t.rewards(Call::RevokeRole { admin, role: Role::Pauser, account: pauser }));
    assert!(!t.rewards.has_role_view(Role::Pauser, pauser));
    assert_eq!(
        t.own_events()[1],
        Event::RoleRevoked { role: Role::Pauser, admin, account: pauser }
    );
    assert_eq!(t.own_events()[1].topic(), "ROLE_REV");
}

#[test]
fn rewards_test_grant_role_requires_admin() {
    let mut t = setup();
    let non_admin = t.generate();
    let target = t.generate();
    let result =
        t.rewards(Call::GrantRole { admin: non_admin, role: Role::Pauser, account: target });
    assert_eq!(result.unwrap_err().message(), "missing role");
}

#[test]
fn test_pause_blocks_claim() {
    let mut t = setup();
    let merchant = t.generate();
    let user = t.generate();
    let cid = make_campaign(&mut t, merchant, 500);
    let pauser = t.admin;
    ok(t.rewards(Call::Pause { pauser }));
    let result = t.claim_reward(user, cid);
    assert!(result.is_err());
    assert_eq!(result, Err(Error::ContractPaused));
}

#[test]
fn test_unpause_allows_claim() {
    let mut t = setup();
    let merchant = t.generate();
    let user = t.generate();
    let cid = make_campaign(&mut t, merchant, 500);
    let pauser = t.admin;
    ok(t.rewards(Call::Pause { pauser }));
    ok(t.rewards(Call::Unpause { pauser }));
    ok(t.claim_reward(user, cid));
    assert!(t.rewards.has_claimed_view(user, cid));
}

#[test]
fn rewards_test_pause_requires_pauser_role() {
    let mut t = setup();
    let non_pauser = t.generate();
    let result = t.rewards(Call::Pause { pauser: non_pauser });
    assert_eq!(result.unwrap_err().message(), "missing role");
}

#[test]
fn test_claim_mints_tokens() {
    let mut t = setup();
    let merchant = t.generate();
    let user = t.generate();

    let cid = make_campaign(&mut t, merchant, 500);
    ok(t.claim_reward(user, cid));

    assert_eq!(t.token.balance(user), 1000);
    assert!(t.rewards.has_claimed_view(user, cid));
}

#[test]
#[should_panic(expected = "already claimed")]
fn test_double_claim_prevented() {
    let mut t = setup();
    let merchant = t.generate();
    let user = t.generate();

    let cid = make_campaign(&mut t, merchant, 500);
    ok(t.claim_reward(user, cid));
    ok(t.claim_reward(user, cid));
}

#[test]
#[should_panic(expected = "campaign not active")]
fn test_claim_inactive_campaign_rejected() {
    let mut t = setup();
    let merchant = t.generate();
    let user = t.generate();

    let cid = make_campaign(&mut t, merchant, 500);
    ok(t.campaigns(campaign::Call::SetActive { campaign_id: cid, active: false }));
    ok(t.claim_reward(user, cid));
}

#[test]
#[should_panic(expected = "campaign not active")]
fn test_claim_expired_campaign_rejected() {
    let mut t = setup();
    let merchant = t.generate();
    let user = t.generate();
    let expiry = t.now + 10;
    let cid = t.create(merchant, 500, expiry);
    t.now = expiry + 1;
    ok(t.claim_reward(user, cid));
}

#[test]
fn test_redeem_burns_tokens() {
    let mut t = setup();
    let merchant = t.generate();
    let user = t.generate();

    let cid = make_campaign(&mut t, merchant, 500);
    ok(t.claim_reward(user, cid));
    ok(t.redeem_reward(user, 200));

    assert_eq!(t.token.balance(user), 800);
    assert_eq!(t.token.total_supply_view(), 800);
}

#[test]
fn test_multiple_users_same_campaign() {
    let mut t = setup();
    let merchant = t.generate();
    let user1 = t.generate();
    let user2 = t.generate();

    let cid = make_campaign(&mut t, merchant, 100);
    ok(t.claim_reward(user1, cid));
    ok(t.claim_reward(user2, cid));

    assert_eq!(t.token.balance(user1), 200);
    assert_eq!(t.token.balance(user2), 200);
    assert_eq!(t.token.total_supply_view(), 400);
    assert_eq!(t.claimed(cid), 2);
}

#[test]
fn test_claim_emits_event() {
    let mut t = setup();
    let merchant = t.generate();
    let user = t.generate();
    let cid = make_campaign(&mut t, merchant, 500);
    ok(t.claim_reward(user, cid));

    let own = t.own_events();
    assert!(!own.is_empty(), "RWD_CLM event not emitted");
    assert_eq!(own[0].topic(), "RWD_CLM");
    assert_eq!(
        own[0],
        Event::RewardClaimed { user, campaign_id: cid, amount: 1000, multiplier_bp: 20_000 }
    );
}

#[test]
fn test_redeem_emits_event() {
    let mut t = setup();
    let merchant = t.generate();
    let user = t.generate();
    let cid = make_campaign(&mut t, merchant, 500);
    ok(t.claim_reward(user, cid));
    ok(t.redeem_reward(user, 200));

    let own = t.own_events();
    let last = own.last();
    assert!(last.is_some(), "RWD_RDM event not emitted");
    assert_eq!(last.unwrap().topic(), "RWD_RDM");
    assert_eq!(*last.unwrap(), Event::RewardRedeemed { user, amount: 200 });
}

#[test]
fn rewards_events_are_labelled() {
    let a = Address { id: 1 };
    let labels = [
        (
            Event::RewardClaimed { user: a, campaign_id: 1, amount: 1, multiplier_bp: 1 },
            Some("user"),
        ),
        (Event::RewardRedeemed { user: a, amount: 1 }, Some("user")),
        (Event::RoleGranted { role: Role::Admin, admin: a, account: a }, None),
        (Event::RoleRevoked { role: Role::Admin, admin: a, account: a }, None),
        (Event::Paused { pauser: a }, None),
        (Event::Unpaused { pauser: a }, None),
    ];
    for (event, label) in labels {
        assert_eq!(event.label(), label);
    }
}

#[test]
fn multiplier_falls_from_two_to_one() {
    let multiplier = RewardsContract::calc_multiplier;
    assert_eq!(multiplier(1_000, 1_000, 2_000), 20_000);
    assert_eq!(multiplier(1_001, 1_000, 2_000), 19_990);
    assert_eq!(multiplier(1_250, 1_000, 2_000), 17_500);
    assert_eq!(multiplier(1_500, 1_000, 2_000), 15_000);
    assert_eq!(multiplier(1_999, 1_000, 2_000), 10_010);
    assert_eq!(multiplier(2_000, 1_000, 2_000), 10_000);
    assert_eq!(multiplier(9_999, 1_000, 2_000), 10_000);
    assert_eq!(multiplier(500, 1_000, 2_000), 20_000);
    assert_eq!(multiplier(1, 0, 3), 16_666);
    assert_eq!(multiplier(2, 0, 3), 13_333);
    assert_eq!(multiplier(0, 5, 5), 10_000);
    assert_eq!(multiplier(0, 6, 5), 10_000);
    let longest = u64::MAX / 10_000;
    assert_eq!(multiplier(0, 0, longest), 20_000);
}

#[test]
fn later_claims_are_worth_less() {
    let mut t = setup();
    let merchant = t.generate();
    let cid = make_campaign(&mut t, merchant, 7);
    let mut amounts = Vec::new();
    for now in [0, 21_600, 43_200, 64_800, 86_399] {
        t.now = now;
        let user = t.generate();
        ok(t.claim_reward(user, cid));
        amounts.push(t.token.balance(user));
    }
    assert_eq!(amounts, vec![14, 12, 10, 8, 7]);
    assert_eq!(t.claimed(cid), 5);
    assert_eq!(t.token.total_supply_view(), 51);
}

#[test]
fn claims_are_announced_by_token_and_rewards() {
    let mut t = setup();
    let merchant = t.generate();
    let user = t.generate();
    let cid = make_campaign(&mut t, merchant, 500);
    t.events.clear();
    ok(t.claim_reward(user, cid));
    assert_eq!(t.events.len(), 2);
    assert_eq!(t.events[0].contract, TOKEN);
    assert!(matches!(
        &t.events[0].event,
        AnyEvent::Token(event)
            if *event == token::Event::Mint { to: user, amount: 1000, supply: 1000 }
    ));
    assert_eq!(t.events[1].contract, REWARDS);
    t.events.clear();
    ok(t.redeem_reward(user, 1000));
    assert_eq!(t.events.len(), 2);
    assert!(matches!(
        &t.events[0].event,
        AnyEvent::Token(event)
            if *event == token::Event::Burn { from: user, amount: 1000, supply: 0 }
    ));
    assert_eq!(t.token.balance(user), 0);
}

#[test]
fn a_refused_claim_changes_nothing() {
    let mut t = setup();
    let merchant = t.generate();
    let user = t.generate();
    let cid = make_campaign(&mut t, merchant, 500);
    let pauser = t.admin;
    ok(t.token(token::Call::Pause { pauser }));
    t.events.clear();
    assert_eq!(t.claim_reward(user, cid), Err(Error::ContractPaused));
    assert!(!t.rewards.has_claimed_view(user, cid));
    assert_eq!(t.claimed(cid), 0);
    assert_eq!(t.token.balance(user), 0);
    assert_eq!(t.events.len(), 0);
    ok(t.token(token::Call::Unpause { pauser }));
    ok(t.claim_reward(user, cid));
    assert_eq!(t.claimed(cid), 1);
}

#[test]
fn claims_need_both_roles_of_the_rewards_contract() {
    let mut t = setup();
    let merchant = t.generate();
    let user = t.generate();
    let admin = t.admin;
    let cid = make_campaign(&mut t, merchant, 500);
    ok(t.token(token::Call::RevokeRole { admin, role: token::Role::Minter, account: REWARDS }));
    assert_eq!(t.claim_reward(user, cid), Err(Error::MissingRole));
    assert_eq!(t.claimed(cid), 0);
    ok(t.token(token::Call::GrantRole { admin, role: token::Role::Minter, account: REWARDS }));
    ok(t.campaigns(campaign::Call::RevokeRole {
        admin,
        role: campaign::Role::Recorder,
        account: REWARDS,
    }));
    assert_eq!(t.claim_reward(user, cid), Err(Error::MissingRole));
    assert!(!t.rewards.has_claimed_view(user, cid));
}

#[test]
fn claims_report_what_is_missing() {
    let mut t = setup();
    let user = t.generate();
    assert_eq!(t.claim_reward(user, 1), Err(Error::CampaignNotFound));
    assert_eq!(t.claim_signed_by(Vec::new(), user, 1), Err(Error::NotAuthorized));
    t.rewards.campaign_contract = None;
    assert_eq!(t.claim_reward(user, 1), Err(Error::NotInitialized));
}

#[test]
fn claims_without_a_token_are_undone() {
    let mut t = setup();
    let merchant = t.generate();
    let user = t.generate();
    let cid = make_campaign(&mut t, merchant, 500);
    t.rewards.token_contract = None;
    assert_eq!(t.claim_reward(user, cid), Err(Error::NotInitialized));
    assert_eq!(t.claimed(cid), 0);
    assert!(!t.rewards.has_claimed_view(user, cid));
    assert_eq!(t.redeem_reward(user, 1), Err(Error::NotInitialized));
}

#[test]
fn claims_beyond_their_types_are_refused() {
    let mut t = setup();
    let merchant = t.generate();
    let user = t.generate();
    let largest = i128::MAX / 20_000;
    let fits = make_campaign(&mut t, merchant, largest);
    let too_much = make_campaign(&mut t, merchant, largest + 1);
    assert_eq!(t.claim_reward(user, too_much), Err(Error::ArithmeticOverflow));
    assert!(!t.rewards.has_claimed_view(user, too_much));
    ok(t.claim_reward(user, fits));
    assert_eq!(t.token.balance(user), 2 * largest);
    let too_long = t.create(merchant, 1, u64::MAX / 10_000 + 1);
    assert_eq!(t.claim_reward(user, too_long), Err(Error::ArithmeticOverflow));
    t.now = 1;
    ok(t.claim_reward(user, too_long));
    assert_eq!(t.token.balance(user), 2 * largest + 1);
}

#[test]
fn claims_stay_noted_for_their_user_and_campaign() {
    let mut t = setup();
    let merchant = t.generate();
    let user1 = t.generate();
    let user2 = t.generate();
    let a = make_campaign(&mut t, merchant, 10);
    let b = make_campaign(&mut t, merchant, 20);
    ok(t.claim_reward(user1, a));
    assert!(t.rewards.has_claimed_view(user1, a));
    assert!(!t.rewards.has_claimed_view(user1, b));
    assert!(!t.rewards.has_claimed_view(user2, a));
    ok(t.claim_reward(user1, b));
    ok(t.claim_reward(user2, a));
    assert_eq!(t.claim_reward(user1, a), Err(Error::AlreadyClaimed));
    assert_eq!((t.claimed(a), t.claimed(b)), (2, 1));
    assert_eq!((t.token.balance(user1), t.token.balance(user2)), (60, 20));
}

#[test]
fn redemptions_are_checked() {
    let mut t = setup();
    let merchant = t.generate();
    let user = t.generate();
    let pauser = t.admin;
    let cid = make_campaign(&mut t, merchant, 50);
    ok(t.claim_reward(user, cid));
    assert_eq!(t.redeem_reward(user, 0), Err(Error::AmountNotPositive));
    assert_eq!(t.redeem_reward(user, -1), Err(Error::AmountNotPositive));
    assert_eq!(t.redeem_reward(user, 101), Err(Error::InsufficientBalance));
    assert_eq!(t.redeem_reward(Address { id: 9 }, 1), Err(Error::NotAuthorized));
    ok(t.rewards(Call::Pause { pauser }));
    assert_eq!(t.redeem_reward(user, 1), Err(Error::ContractPaused));
    ok(t.rewards(Call::Unpause { pauser }));
    ok(t.redeem_reward(user, 100));
    assert_eq!(t.token.balance(user), 0);
    assert_eq!(t.token.total_supply_view(), 0);
}

#[test]
fn rewards_are_initialized_once() {
    let mut t = setup();
    let other = t.generate();
    let again = Call::Initialize { admin: other, token_contract: other, campaign_contract: other };
    assert_eq!(t.rewards(again), Err(Error::AlreadyInitialized));
    assert_eq!(t.rewards.token_contract, Some(TOKEN));
    assert!(!t.rewards.has_role_view(Role::Admin, other));
}

#[test]
fn rewards_pausing_is_announced() {
    let mut t = setup();
    let pauser = t.admin;
    assert!(!t.rewards.is_paused());
    ok(t.rewards(Call::Pause { pauser }));
    assert!(t.rewards.is_paused());
    ok(t.rewards(Call::Unpause { pauser }));
    assert!(!t.rewards.is_paused());
    assert_eq!(t.own_events(), vec![Event::Paused { pauser }, Event::Unpaused { pauser }]);
    assert_eq!(t.own_events()[0].topic(), "PAUSED");
    assert_eq!(t.own_events()[1].topic(), "UNPAUSED");
}

#[test]
fn rewards_calls_need_their_author() {
    let mut t = setup();
    let admin = t.admin;
    let calls = vec![
        Call::GrantRole { admin, role: Role::Pauser, account: admin },
        Call::RevokeRole { admin, role: Role::Pauser, account: admin },
        Call::Pause { pauser: admin },
        Call::Unpause { pauser: admin },
    ];
    for call in calls {
        assert_eq!(call.signer(), Some(admin));
        let mut invocation = Invocation::new(t.host.clone(), REWARDS, 0, vec![REWARDS]);
        assert_eq!(t.rewards.execute(&mut invocation, call), Err(Error::NotAuthorized));
        assert_eq!(invocation.events.len(), 0);
    }
}

fn terms(t: &Setup, reward_amount: i128, created_at: u64, expiration: u64) -> Campaign {
    Campaign {
        id: 4,
        merchant: t.admin,
        reward_amount,
        expiration,
        created_at,
        active: true,
        total_claimed: 0,
        name: Bytes::new(&t.host),
        description: Bytes::new(&t.host),
    }
}

#[test]
fn a_claim_goes_from_stage_to_stage() {
    let mut t = setup();
    let user = t.generate();
    t.now = 50;
    let mut invocation = t.invocation(REWARDS);
    let ask_active = ok(t.rewards.begin_claim(&invocation, user, 4));
    assert_eq!(ask_active, Stage::AskActive { campaign_contract: CAMPAIGNS });
    assert_eq!(
        t.rewards.advance_claim(&mut invocation, user, 4, ask_active, Answer::Active(false)),
        Err(Error::CampaignNotActive)
    );
    let ask_terms =
        ok(t.rewards.advance_claim(&mut invocation, user, 4, ask_active, Answer::Active(true)));
    assert_eq!(ask_terms, Stage::AskTerms { campaign_contract: CAMPAIGNS });
    assert!(!t.rewards.has_claimed_view(user, 4));
    let huge = Answer::Terms(terms(&t, i128::MAX, 0, 100));
    assert_eq!(
        t.rewards.advance_claim(&mut invocation, user, 4, ask_terms, huge),
        Err(Error::ArithmeticOverflow)
    );
    assert!(!t.rewards.has_claimed_view(user, 4));
    let answer = Answer::Terms(terms(&t, 33, 0, 100));
    let record = ok(t.rewards.advance_claim(&mut invocation, user, 4, ask_terms, answer));
    let grant = Grant { multiplier_bp: 15_000, amount: 49 };
    assert_eq!(record, Stage::Record { campaign_contract: CAMPAIGNS, grant });
    assert!(t.rewards.has_claimed_view(user, 4));
    assert_eq!(t.rewards.begin_claim(&invocation, user, 4), Err(Error::AlreadyClaimed));
    let mint = ok(t.rewards.advance_claim(&mut invocation, user, 4, record, Answer::Recorded));
    assert_eq!(mint, Stage::Mint { token_contract: TOKEN, grant });
    assert_eq!(t.rewards.begin_claim(&invocation, user, 4), Err(Error::AlreadyClaimed));
    assert_eq!(invocation.events.len(), 0);
    let done = ok(t.rewards.advance_claim(&mut invocation, user, 4, mint, Answer::Minted));
    assert_eq!(done, Stage::Done);
    assert!(matches!(
        &invocation.events[0].event,
        AnyEvent::Rewards(Event::RewardClaimed { amount: 49, multiplier_bp: 15_000, .. })
    ));
}

#[test]
fn a_negative_reward_is_cut_towards_zero() {
    let mut t = setup();
    let user = t.generate();
    t.now = 50;
    let mut invocation = t.invocation(REWARDS);
    let stage = Stage::AskTerms { campaign_contract: CAMPAIGNS };
    let answer = Answer::Terms(terms(&t, -33, 0, 100));
    assert_eq!(
        t.rewards.advance_claim(&mut invocation, user, 4, stage, answer),
        Ok(Stage::Record {
            campaign_contract: CAMPAIGNS,
            grant: Grant { multiplier_bp: 15_000, amount: -49 },
        })
    );
}

#[test]
fn rewards_footprints_name_the_entries() {
    let user = Address { id: 5 };
    assert_eq!(
        RewardsContract::claim_footprint(user, 9),
        vec![
            DataKey::Paused,
            DataKey::Claimed(user, 9),
            DataKey::CampaignContract,
            DataKey::TokenContract
        ]
    );
    assert_eq!(
        RewardsContract::redeem_footprint(),
        vec![DataKey::Paused, DataKey::TokenContract]
    );
    let call = Call::Initialize { admin: user, token_contract: user, campaign_contract: user };
    assert_eq!(call.footprint().len(), 5);
    assert_eq!(call.signer(), None);
    assert_eq!(
        Call::Pause { pauser: user }.footprint(),
        vec![DataKey::RoleMember(Role::Pauser, user), DataKey::Paused]
    );
}

#[test]
fn counts_match_claimants_along_a_history() {
    let mut t = setup();
    let merchant = t.generate();
    let a = make_campaign(&mut t, merchant, 10);
    let b = make_campaign(&mut t, merchant, 30);
    let users: Vec<Address> = (0..4).map(|_| t.generate()).collect();
    for (at, user) in users.iter().enumerate() {
        t.now = 1_000 * at as u64;
        ok(t.claim_reward(*user, a));
        if at % 2 == 0 {
            ok(t.claim_reward(*user, b));
        }
        assert!(t.claim_reward(*user, a).is_err());
    }
    ok(t.token(token::Call::Transfer { from: users[0], to: users[1], amount: 5 }));
    ok(t.redeem_reward(users[1], 3));
    assert_eq!((t.claimed(a), t.claimed(b)), (4, 2));
    let claimed = |id: u64| users.iter().filter(|u| t.rewards.has_claimed_view(**u, id)).count();
    assert_eq!((claimed(a), claimed(b)), (4, 2));
    let held: i128 = users.iter().map(|user| t.token.balance(*user)).sum();
    assert_eq!(held, t.token.total_supply_view());
}
