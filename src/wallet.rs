use crate::address::{address_spec, derive_address};
use crate::definitions::{BroadcastMode, ChainFamily, CoinType};
use crate::errors::ClientError;
use crate::fee::{derive_fee, fee_outcome};
use crate::key::{pad32, secret_accepted, seed_phrase_secret, Key};
use crate::math::Decimal;
use crate::tx::{signed_as, signing_succeeds, AccountState, AnyMsg, Fee, SignedTx, UnsignedTx};
use vstd::prelude::*;

verus! {

/// A node request that submits a signed transaction.
#[derive(Clone, Debug, PartialEq, Eq)]
pub struct BroadcastRequest {
    pub tx_bytes: Vec<u8>,
    pub mode: i32,
}

/// What a broadcast needs next from the node.
#[derive(Clone, Debug, PartialEq, Eq)]
pub enum BroadcastStep {
    /// Simulate these transaction bytes to learn the gas used, then call
    /// `Wallet::broadcast_after_simulation`.
    Simulate(Vec<u8>),
    /// Submit this request, then report the outcome to `Wallet::finish_broadcast`.
    Submit(BroadcastRequest),
}

/// The text of an optional memo; an absent memo is empty.
pub open spec fn memo_text(memo: Option<String>) -> Seq<char> {
    match memo {
        Some(m) => m@,
        None => Seq::<char>::empty(),
    }
}

/// `bytes` is the wire encoding of a signed transaction.
pub open spec fn raw_bytes_of(bytes: Seq<u8>, tx: SignedTx) -> bool {
    bytes == crate::tx::tx_raw_encoding(
        tx.body_bytes@,
        tx.auth_info_bytes@,
        crate::tx::sigs_view(tx.signatures@),
    )
}

/// An account of one chain: its signing key, chain family, address, counters
/// and fee parameters.
pub struct Wallet {
    coin_type: CoinType,
    identity: Key,
    account_address: String,
    chain_id: String,
    prefix: String,
    account_number: u64,
    account_sequence: u64,
    gas_price: Decimal,
    gas_adjustment: Decimal,
    gas_denom: String,
}

/// The error, if any, that stops a wallet from being made for a key.
pub open spec fn creation_error(pk: Seq<u8>, prefix: Seq<char>, coin_type: u64) -> Option<ClientError> {
    match CoinType::of_code(coin_type) {
        None => Some(ClientError::InvalidCoinType),
        Some(c) => match address_spec(pk, c.family_of(), prefix) {
            Ok(_) => None,
            Err(e) => Some(e),
        },
    }
}

impl Wallet {
    pub closed spec fn coin_type_spec(&self) -> CoinType {
        self.coin_type
    }

    pub closed spec fn identity_spec(&self) -> Key {
        self.identity
    }

    pub closed spec fn address_view(&self) -> Seq<char> {
        self.account_address@
    }

    pub closed spec fn chain_id_view(&self) -> Seq<char> {
        self.chain_id@
    }

    pub closed spec fn prefix_view(&self) -> Seq<char> {
        self.prefix@
    }

    pub closed spec fn gas_price_spec(&self) -> Decimal {
        self.gas_price
    }

    pub closed spec fn gas_adjustment_spec(&self) -> Decimal {
        self.gas_adjustment
    }

    pub closed spec fn gas_denom_view(&self) -> Seq<char> {
        self.gas_denom@
    }

    /// The chain family, fixed by the coin type for the wallet's lifetime.
    pub open spec fn family_spec(&self) -> ChainFamily {
        self.coin_type_spec().family_of()
    }

    /// The replay-protection counters that the next transaction uses.
    pub closed spec fn account_spec(&self) -> AccountState {
        AccountState { account_number: self.account_number, sequence: self.account_sequence }
    }

    /// The key is well formed and the address is the key's own in the wallet's family.
    pub open spec fn wf(&self) -> bool {
        &&& self.identity_spec().wf()
        &&& address_spec(self.identity_spec().public_key_bytes(), self.family_spec(), self.prefix_view())
            == Ok::<Seq<char>, ClientError>(self.address_view())
    }

    /// `self` is a fresh wallet for this key and these parameters, with counters `(0, 0)`.
    pub open spec fn created_as(
        &self,
        identity: Key,
        chain_id: Seq<char>,
        prefix: Seq<char>,
        coin_type: u64,
        gas_price: Decimal,
        gas_adjustment: Decimal,
        gas_denom: Seq<char>,
    ) -> bool {
        &&& self.wf()
        &&& self.identity_spec() == identity
        &&& CoinType::of_code(coin_type) == Some(self.coin_type_spec())
        &&& self.chain_id_view() == chain_id
        &&& self.prefix_view() == prefix
        &&& self.account_spec() == AccountState { account_number: 0, sequence: 0 }
        &&& self.gas_price_spec() == gas_price
        &&& self.gas_adjustment_spec() == gas_adjustment
        &&& self.gas_denom_view() == gas_denom
    }

    /// The outcome of making a wallet for a key: the creation error, or a fresh wallet.
    pub open spec fn creation_outcome(
        r: Result<Wallet, ClientError>,
        identity: Key,
        chain_id: Seq<char>,
        prefix: Seq<char>,
        coin_type: u64,
        gas_price: Decimal,
        gas_adjustment: Decimal,
        gas_denom: Seq<char>,
    ) -> bool {
        match creation_error(identity.public_key_bytes(), prefix, coin_type) {
            Some(e) => r == Err::<Wallet, ClientError>(e),
            None => r matches Ok(w) && w.created_as(
                identity,
                chain_id,
                prefix,
                coin_type,
                gas_price,
                gas_adjustment,
                gas_denom,
            ),
        }
    }

    fn finalize_wallet_creation(
        identity: Key,
        chain_id: String,
        chain_prefix: String,
        coin_type: u64,
        gas_price: Decimal,
        gas_adjustment: Decimal,
        gas_denom: String,
    ) -> (r: Result<Wallet, ClientError>)
        requires
            identity.wf(),
        ensures
            Wallet::creation_outcome(
                r,
                identity,
                chain_id@,
                chain_prefix@,
                coin_type,
                gas_price,
                gas_adjustment,
                gas_denom@,
            ),
    {
        let coin = match CoinType::from_repr(coin_type) {
            Some(c) => c,
            None => {
                return Err(ClientError::InvalidCoinType);
            },
        };
        let address = derive_address(
            identity.public_key().as_slice(),
            coin.family(),
            chain_prefix.as_str(),
        );
        match address {
            Ok(account_address) => Ok(
                Wallet {
                    coin_type: coin,
                    identity,
                    account_address,
                    chain_id,
                    prefix: chain_prefix,
                    account_number: 0,
                    account_sequence: 0,
                    gas_price,
                    gas_adjustment,
                    gas_denom,
                },
            ),
            Err(e) => Err(e),
        }
    }

    /// A wallet for a freshly drawn key. Its counters are `(0, 0)` until
    /// `bootstrap` sets them from the node.
    pub fn random(
        chain_id: String,
        chain_prefix: String,
        coin_type: u64,
        gas_price: Decimal,
        gas_adjustment: Decimal,
        gas_denom: String,
    ) -> (r: Result<Wallet, ClientError>)
        ensures
            exists|identity: Key|
                identity.wf() && #[trigger] Wallet::creation_outcome(
                    r,
                    identity,
                    chain_id@,
                    chain_prefix@,
                    coin_type,
                    gas_price,
                    gas_adjustment,
                    gas_denom@,
                ),
    {
        Wallet::finalize_wallet_creation(
            Key::random(),
            chain_id,
            chain_prefix,
            coin_type,
            gas_price,
            gas_adjustment,
            gas_denom,
        )
    }

    /// A wallet for the key whose secret scalar the bytes spell.
    pub fn from_private_key(
        chain_id: String,
        private_key: &[u8],
        chain_prefix: String,
        coin_type: u64,
        gas_price: Decimal,
        gas_adjustment: Decimal,
        gas_denom: String,
    ) -> (r: Result<Wallet, ClientError>)
        ensures
            !secret_accepted(private_key@) ==> r == Err::<Wallet, ClientError>(
                ClientError::InvalidKeyMaterial,
            ),
            secret_accepted(private_key@) ==> exists|identity: Key|
                identity.wf() && identity.secret_bytes() == pad32(private_key@)
                    && #[trigger] Wallet::creation_outcome(
                    r,
                    identity,
                    chain_id@,
                    chain_prefix@,
                    coin_type,
                    gas_price,
                    gas_adjustment,
                    gas_denom@,
                ),
    {
        let identity = match Key::from_private_key(private_key) {
            Ok(id) => id,
            Err(e) => {
                return Err(e);
            },
        };
        Wallet::finalize_wallet_creation(
            identity,
            chain_id,
            chain_prefix,
            coin_type,
            gas_price,
            gas_adjustment,
            gas_denom,
        )
    }

    /// A wallet for the key at `m/44'/<coin_type>'/0'/0/<account_index>` under a
    /// BIP-39 mnemonic.
    pub fn from_seed_phrase(
        chain_id: String,
        seed_phrase: &str,
        chain_prefix: String,
        coin_type: u64,
        account_index: u64,
        gas_price: Decimal,
        gas_adjustment: Decimal,
        gas_denom: String,
    ) -> (r: Result<Wallet, ClientError>)
        ensures
            match seed_phrase_secret(seed_phrase@, account_index, coin_type) {
                Err(e) => r == Err::<Wallet, ClientError>(e),
                Ok(s) => exists|identity: Key|
                    identity.wf() && identity.secret_bytes() == s
                        && #[trigger] Wallet::creation_outcome(
                        r,
                        identity,
                        chain_id@,
                        chain_prefix@,
                        coin_type,
                        gas_price,
                        gas_adjustment,
                        gas_denom@,
                    ),
            },
    {
        let identity = match Key::from_seed_phrase(seed_phrase, account_index, coin_type) {
            Ok(id) => id,
            Err(e) => {
                return Err(e);
            },
        };
        Wallet::finalize_wallet_creation(
            identity,
            chain_id,
            chain_prefix,
            coin_type,
            gas_price,
            gas_adjustment,
            gas_denom,
        )
    }

    /// Sets the counters from the node's account record (see `AccountState`).
    pub fn bootstrap(&mut self, state: AccountState)
        ensures
            final(self).account_spec() == state,
            final(self).identity_spec() == old(self).identity_spec(),
            final(self).coin_type_spec() == old(self).coin_type_spec(),
            final(self).address_view() == old(self).address_view(),
            final(self).prefix_view() == old(self).prefix_view(),
            final(self).chain_id_view() == old(self).chain_id_view(),
            final(self).gas_price_spec() == old(self).gas_price_spec(),
            final(self).gas_adjustment_spec() == old(self).gas_adjustment_spec(),
            final(self).gas_denom_view() == old(self).gas_denom_view(),
            old(self).wf() ==> final(self).wf(),
    {
        self.account_number = state.account_number;
        self.account_sequence = state.sequence;
    }

    /// The chain family of the wallet.
    pub fn family(&self) -> (r: ChainFamily)
        ensures
            r == self.family_spec(),
    {
        self.coin_type.family()
    }

    /// The coin type of the wallet.
    pub fn coin_type(&self) -> (r: CoinType)
        ensures
            r == self.coin_type_spec(),
    {
        self.coin_type
    }

    /// The wallet's account address.
    pub fn account_address(&self) -> (r: &String)
        ensures
            r@ == self.address_view(),
    {
        &self.account_address
    }

    /// The chain id that signatures commit to.
    pub fn chain_id(&self) -> (r: &String)
        ensures
            r@ == self.chain_id_view(),
    {
        &self.chain_id
    }

    /// The address prefix the wallet was made with.
    pub fn prefix(&self) -> (r: &String)
        ensures
            r@ == self.prefix_view(),
    {
        &self.prefix
    }

    /// The account number of the account's counters.
    pub fn account_number(&self) -> (r: u64)
        ensures
            r == self.account_spec().account_number,
    {
        self.account_number
    }

    /// The sequence that the next transaction carries.
    pub fn account_sequence(&self) -> (r: u64)
        ensures
            r == self.account_spec().sequence,
    {
        self.account_sequence
    }

    /// The gas price, in fee units per gas unit.
    pub fn gas_price(&self) -> (r: Decimal)
        ensures
            r == self.gas_price_spec(),
    {
        self.gas_price
    }

    /// The factor applied to the simulated gas.
    pub fn gas_adjustment(&self) -> (r: Decimal)
        ensures
            r == self.gas_adjustment_spec(),
    {
        self.gas_adjustment
    }

    /// The denomination that fees are paid in.
    pub fn gas_denom(&self) -> (r: &String)
        ensures
            r@ == self.gas_denom_view(),
    {
        &self.gas_denom
    }

    /// The wallet's compressed public key.
    pub fn public_key(&self) -> (r: &Vec<u8>)
        ensures
            r@ == self.identity_spec().public_key_bytes(),
    {
        self.identity.public_key()
    }

    /// The counters that the next transaction carries.
    pub fn account_state(&self) -> (r: AccountState)
        ensures
            r == self.account_spec(),
    {
        AccountState { account_number: self.account_number, sequence: self.account_sequence }
    }

    /// Builds and signs a transaction of `msgs` (in order) with `fee` and
    /// `memo`, using the wallet's key, family, counters and chain id.
    pub fn create_tx(&self, msgs: Vec<AnyMsg>, fee: Fee, memo: Option<String>) -> (r: Result<
        SignedTx,
        ClientError,
    >)
        requires
            self.wf(),
        ensures
            r matches Ok(tx) ==> signed_as(
                tx,
                msgs@,
                fee,
                memo_text(memo),
                self.identity_spec(),
                self.family_spec(),
                self.account_spec(),
                self.chain_id_view(),
            ),
            r matches Err(e) ==> e == ClientError::SigningFailure,
            r is Ok <==> signing_succeeds(
                msgs@,
                fee,
                memo_text(memo),
                self.identity_spec(),
                self.family_spec(),
                self.account_spec(),
                self.chain_id_view(),
            ),
    {
        let unsigned = UnsignedTx::build(msgs, fee, memo);
        unsigned.sign(&self.identity, self.coin_type.family(), self.account_state(), self.chain_id.as_str())
    }

    /// `req` submits, in `mode`, the transaction of `msgs`, `fee` and `memo`
    /// signed by this wallet.
    pub open spec fn submits(
        &self,
        req: BroadcastRequest,
        msgs: Seq<AnyMsg>,
        fee: Fee,
        memo: Seq<char>,
        mode: BroadcastMode,
    ) -> bool {
        &&& req.mode == mode.code()
        &&& exists|tx: SignedTx|
            #[trigger] signed_as(
                tx,
                msgs,
                fee,
                memo,
                self.identity_spec(),
                self.family_spec(),
                self.account_spec(),
                self.chain_id_view(),
            ) && raw_bytes_of(req.tx_bytes@, tx)
    }

    /// `tx` is the simulation transaction of `msgs`: empty fee, zero gas
    /// limit, empty memo, signed by this wallet.
    pub open spec fn simulation_of(&self, tx: SignedTx, msgs: Seq<AnyMsg>) -> bool {
        exists|fee: Fee|
            fee.amount@.len() == 0 && fee.gas_limit == 0 && #[trigger] signed_as(
                tx,
                msgs,
                fee,
                Seq::<char>::empty(),
                self.identity_spec(),
                self.family_spec(),
                self.account_spec(),
                self.chain_id_view(),
            )
    }

    /// Signing the simulation transaction of `msgs` succeeds.
    pub open spec fn simulation_signs(&self, msgs: Seq<AnyMsg>) -> bool {
        exists|fee: Fee|
            fee.amount@.len() == 0 && fee.gas_limit == 0 && #[trigger] signing_succeeds(
                msgs,
                fee,
                Seq::<char>::empty(),
                self.identity_spec(),
                self.family_spec(),
                self.account_spec(),
                self.chain_id_view(),
            )
    }

    /// The transaction to simulate for a gas estimate: the messages with an
    /// empty fee, a zero gas limit and an empty memo, signed as usual.
    pub fn simulate_tx(&self, msgs: Vec<AnyMsg>) -> (r: Result<SignedTx, ClientError>)
        requires
            self.wf(),
        ensures
            r matches Ok(tx) ==> self.simulation_of(tx, msgs@),
            r matches Err(e) ==> e == ClientError::SigningFailure,
            r is Ok <==> self.simulation_signs(msgs@),
    {
        let fee = Fee { amount: Vec::new(), gas_limit: 0 };
        let ghost f = fee;
        let r = self.create_tx(msgs, fee, Some(String::new()));
        proof {
            if r is Ok {
                assert(signed_as(
                    r->Ok_0,
                    msgs@,
                    f,
                    Seq::<char>::empty(),
                    self.identity_spec(),
                    self.family_spec(),
                    self.account_spec(),
                    self.chain_id_view(),
                ));
            }
            if self.simulation_signs(msgs@) {
                let g = choose|g: Fee|
                    g.amount@.len() == 0 && g.gas_limit == 0 && #[trigger] signing_succeeds(
                        msgs@,
                        g,
                        Seq::<char>::empty(),
                        self.identity_spec(),
                        self.family_spec(),
                        self.account_spec(),
                        self.chain_id_view(),
                    );
                assert(crate::tx::coins_view(g.amount@) =~= crate::tx::coins_view(f.amount@));
            }
            if r is Ok {
                assert(signing_succeeds(
                    msgs@,
                    f,
                    Seq::<char>::empty(),
                    self.identity_spec(),
                    self.family_spec(),
                    self.account_spec(),
                    self.chain_id_view(),
                ));
            }
        }
        r
    }

    /// The fee for a simulation's gas figure, with the wallet's price,
    /// adjustment and denomination; `NoGasEstimate` when the figure is missing.
    pub fn fee_from_simulation(&self, gas_used: Option<u64>) -> (r: Result<Fee, ClientError>)
        ensures
            gas_used is None ==> r == Err::<Fee, ClientError>(ClientError::NoGasEstimate),
            gas_used matches Some(g) ==> fee_outcome(
                r,
                g,
                self.gas_price_spec(),
                self.gas_adjustment_spec(),
                self.gas_denom_view(),
            ),
    {
        match gas_used {
            Some(g) => derive_fee(g, self.gas_price, self.gas_adjustment, self.gas_denom.as_str()),
            None => Err(ClientError::NoGasEstimate),
        }
    }

    fn submit_request(&self, msgs: Vec<AnyMsg>, fee: Fee, memo: Option<String>, mode: BroadcastMode) -> (r:
        Result<BroadcastRequest, ClientError>)
        requires
            self.wf(),
        ensures
            r matches Ok(req) ==> self.submits(req, msgs@, fee, memo_text(memo), mode),
            r matches Err(e) ==> e == ClientError::SigningFailure,
            r is Ok <==> signing_succeeds(
                msgs@,
                fee,
                memo_text(memo),
                self.identity_spec(),
                self.family_spec(),
                self.account_spec(),
                self.chain_id_view(),
            ),
    {
        match self.create_tx(msgs, fee, memo) {
            Ok(tx) => Ok(BroadcastRequest { tx_bytes: tx.to_bytes(), mode: mode.repr() }),
            Err(e) => Err(e),
        }
    }

    /// The first step of a broadcast. With an explicit fee, estimation is
    /// skipped: the transaction is signed with that fee and submitted. Without
    /// one, the simulation transaction comes first.
    pub fn broadcast_tx(
        &self,
        msgs: Vec<AnyMsg>,
        fee: Option<Fee>,
        memo: Option<String>,
        mode: BroadcastMode,
    ) -> (r: Result<BroadcastStep, ClientError>)
        requires
            self.wf(),
        ensures
            r matches Err(e) ==> e == ClientError::SigningFailure,
            match fee {
                Some(f) => {
                    &&& r matches Ok(step) ==> step matches BroadcastStep::Submit(req)
                        && self.submits(req, msgs@, f, memo_text(memo), mode)
                    &&& r is Ok <==> signing_succeeds(
                        msgs@,
                        f,
                        memo_text(memo),
                        self.identity_spec(),
                        self.family_spec(),
                        self.account_spec(),
                        self.chain_id_view(),
                    )
                },
                None => {
                    &&& r matches Ok(step) ==> step matches BroadcastStep::Simulate(bytes)
                        && exists|tx: SignedTx|
                        #[trigger] self.simulation_of(tx, msgs@) && raw_bytes_of(bytes@, tx)
                    &&& r is Ok <==> self.simulation_signs(msgs@)
                },
            },
    {
        match fee {
            Some(fee) => match self.submit_request(msgs, fee, memo, mode) {
                Ok(req) => Ok(BroadcastStep::Submit(req)),
                Err(e) => Err(e),
            },
            None => match self.simulate_tx(msgs) {
                Ok(tx) => {
                    let bytes = tx.to_bytes();
                    proof {
                        assert(self.simulation_of(tx, msgs@) && raw_bytes_of(bytes@, tx));
                    }
                    Ok(BroadcastStep::Simulate(bytes))
                },
                Err(e) => Err(e),
            },
        }
    }

    /// The second step of a broadcast without an explicit fee: derives the fee
    /// from the simulation's gas figure and signs the transaction with it.
    pub fn broadcast_after_simulation(
        &self,
        msgs: Vec<AnyMsg>,
        gas_used: Option<u64>,
        memo: Option<String>,
        mode: BroadcastMode,
    ) -> (r: Result<BroadcastRequest, ClientError>)
        requires
            self.wf(),
        ensures
            gas_used is None ==> r == Err::<BroadcastRequest, ClientError>(
                ClientError::NoGasEstimate,
            ),
            gas_used matches Some(g) ==> {
                &&& r matches Ok(req) ==> exists|fee: Fee|
                    fee_outcome(
                        Ok::<Fee, ClientError>(fee),
                        g,
                        self.gas_price_spec(),
                        self.gas_adjustment_spec(),
                        self.gas_denom_view(),
                    ) && #[trigger] self.submits(req, msgs@, fee, memo_text(memo), mode)
                &&& r matches Err(e) ==> (e == ClientError::SigningFailure || fee_outcome(
                    Err::<Fee, ClientError>(e),
                    g,
                    self.gas_price_spec(),
                    self.gas_adjustment_spec(),
                    self.gas_denom_view(),
                ))
                &&& r is Ok <==> exists|fee: Fee|
                    fee_outcome(
                        Ok::<Fee, ClientError>(fee),
                        g,
                        self.gas_price_spec(),
                        self.gas_adjustment_spec(),
                        self.gas_denom_view(),
                    ) && #[trigger] signing_succeeds(
                        msgs@,
                        fee,
                        memo_text(memo),
                        self.identity_spec(),
                        self.family_spec(),
                        self.account_spec(),
                        self.chain_id_view(),
                    )
            },
    {
        let fee = match self.fee_from_simulation(gas_used) {
            Ok(f) => f,
            Err(e) => {
                return Err(e);
            },
        };
        let ghost f = fee;
        let r = self.submit_request(msgs, fee, memo, mode);
        proof {
            if r is Ok {
                assert(self.submits(r->Ok_0, msgs@, f, memo_text(memo), mode));
                assert(fee_outcome(
                    Ok::<Fee, ClientError>(f),
                    gas_used->0,
                    self.gas_price_spec(),
                    self.gas_adjustment_spec(),
                    self.gas_denom_view(),
                ));
                assert(signing_succeeds(
                    msgs@,
                    f,
                    memo_text(memo),
                    self.identity_spec(),
                    self.family_spec(),
                    self.account_spec(),
                    self.chain_id_view(),
                ));
            }
            if exists|fee: Fee|
                fee_outcome(
                    Ok::<Fee, ClientError>(fee),
                    gas_used->0,
                    self.gas_price_spec(),
                    self.gas_adjustment_spec(),
                    self.gas_denom_view(),
                ) && #[trigger] signing_succeeds(
                    msgs@,
                    fee,
                    memo_text(memo),
                    self.identity_spec(),
                    self.family_spec(),
                    self.account_spec(),
                    self.chain_id_view(),
                ) {
                let other = choose|fee: Fee|
                    fee_outcome(
                        Ok::<Fee, ClientError>(fee),
                        gas_used->0,
                        self.gas_price_spec(),
                        self.gas_adjustment_spec(),
                        self.gas_denom_view(),
                    ) && #[trigger] signing_succeeds(
                        msgs@,
                        fee,
                        memo_text(memo),
                        self.identity_spec(),
                        self.family_spec(),
                        self.account_spec(),
                        self.chain_id_view(),
                    );
                assert(crate::tx::coins_view(other.amount@) =~= crate::tx::coins_view(f.amount@));
            }
        }
        r
    }

    /// Reports the outcome of a submission. An accepted submission (the call
    /// returned without a transport or application error) advances the
    /// sequence by one; a failed one leaves the wallet as it was.
    pub fn finish_broadcast(&mut self, accepted: bool)
        requires
            accepted ==> old(self).account_spec().sequence < u64::MAX,
        ensures
            advanced(*old(self), *final(self), accepted),
    {
        if accepted {
            self.account_sequence = self.account_sequence + 1;
        }
    }
}

/// `new` is `old` after a submission with this outcome.
pub open spec fn advanced(old: Wallet, new: Wallet, accepted: bool) -> bool {
    &&& new.account_spec().sequence == if accepted {
        old.account_spec().sequence + 1
    } else {
        old.account_spec().sequence as int
    }
    &&& new.account_spec().account_number == old.account_spec().account_number
    &&& new.identity_spec() == old.identity_spec()
    &&& new.coin_type_spec() == old.coin_type_spec()
    &&& new.address_view() == old.address_view()
    &&& new.prefix_view() == old.prefix_view()
    &&& new.chain_id_view() == old.chain_id_view()
    &&& new.gas_price_spec() == old.gas_price_spec()
    &&& new.gas_adjustment_spec() == old.gas_adjustment_spec()
    &&& new.gas_denom_view() == old.gas_denom_view()
}

/// Over consecutive accepted submissions from one wallet, the sequence that
/// each next transaction carries grows by exactly one per submission, starting
/// from the bootstrapped value.
pub proof fn lemma_accepted_broadcasts_sequence(ws: Seq<Wallet>)
    requires
        ws.len() >= 1,
        forall|k: int| 0 <= k < ws.len() - 1 ==> advanced(#[trigger] ws[k], ws[k + 1], true),
    ensures
        forall|k: int|
            0 <= k < ws.len() ==> (#[trigger] ws[k]).account_spec().sequence == ws[0].account_spec().sequence
                + k,
    decreases ws.len(),
{
    if ws.len() > 1 {
        let prefix = ws.drop_last();
        assert forall|k: int| 0 <= k < prefix.len() - 1 implies advanced(
            #[trigger] prefix[k],
            prefix[k + 1],
            true,
        ) by {
            assert(advanced(ws[k], ws[k + 1], true));
        }
        lemma_accepted_broadcasts_sequence(prefix);
        assert forall|k: int| 0 <= k < ws.len() implies (#[trigger] ws[k]).account_spec().sequence
            == ws[0].account_spec().sequence + k by {
            if k < ws.len() - 1 {
                assert(prefix[k] == ws[k]);
            } else {
                assert(prefix[k - 1] == ws[k - 1]);
                assert(advanced(ws[k - 1], ws[k], true));
            }
        }
    }
}

/// A transaction that a wallet signs embeds a public key from which the
/// wallet's own address derives again.
pub proof fn lemma_signer_address_round_trip(
    w: Wallet,
    tx: SignedTx,
    msgs: Seq<AnyMsg>,
    fee: Fee,
    memo: Seq<char>,
)
    requires
        w.wf(),
        signed_as(tx, msgs, fee, memo, w.identity_spec(), w.family_spec(), w.account_spec(), w.chain_id_view()),
    ensures
        address_spec(tx.signer.public_key@, w.family_spec(), w.prefix_view()) == Ok::<
            Seq<char>,
            ClientError,
        >(w.address_view()),
{
}

/// In the EthCompatible family the prefix a wallet was made with does not
/// affect its address: two such wallets of one key have the same address.
pub proof fn lemma_eth_wallet_address_ignores_prefix(w1: Wallet, w2: Wallet)
    requires
        w1.wf(),
        w2.wf(),
        w1.family_spec() == ChainFamily::EthCompatible,
        w2.family_spec() == ChainFamily::EthCompatible,
        w1.identity_spec().public_key_bytes() == w2.identity_spec().public_key_bytes(),
    ensures
        w1.address_view() == w2.address_view(),
{
    crate::address::lemma_eth_address_ignores_prefix(
        w1.identity_spec().public_key_bytes(),
        w1.prefix_view(),
        w2.prefix_view(),
    );
}

} // verus!
