//! The controller: its state, and what each request does to it.
use vstd::prelude::*;

use crate::msg::{
    Coin, ContractError, ContractInfoResponse, CosmosMsg, InstantiateMsg, MyExecuteMsg,
    OwnerResponse, QueryMsg, QueryResponse, Response,
};
use crate::payment::{funds_in, payment_denom, pays_exactly};
use crate::pool::{draw_ids, ids_of, insert_id, remove_id, sorted_ids};

verus! {

/// The controller's persisted state.
pub struct Cw721Controller {
    pub collection_info: ContractInfoResponse,
    pub owner: String,
    pub uluna_price: u32,
    pub mint_cap: u32,
    pub nft_contract_addr: String,
    /// The identifiers still eligible, kept in strictly ascending order
    /// (see `wf`).
    pub allowed_token_ids: Vec<String>,
}

/// Success, with nothing sent out.
pub open spec fn sends_nothing(r: Result<Response, ContractError>) -> bool {
    r is Ok && r->Ok_0.messages@.len() == 0
}

/// Success, with one instruction to create `ids` for `owner` at `contract`.
pub open spec fn sends_mint(
    r: Result<Response, ContractError>,
    contract: Seq<char>,
    owner: Seq<char>,
    ids: Seq<Seq<char>>,
) -> bool {
    &&& r is Ok
    &&& r->Ok_0.messages@.len() == 1
    &&& match r->Ok_0.messages@[0] {
        CosmosMsg::Mint { contract_addr, owner: o, token_ids } => contract_addr@ == contract && o@
            == owner && ids_of(token_ids@) == ids,
        _ => false,
    }
}

/// Success, with one instruction to `contract` that `new_minter` mints from now on.
pub open spec fn sends_change_minter(
    r: Result<Response, ContractError>,
    contract: Seq<char>,
    new_minter: Seq<char>,
) -> bool {
    &&& r is Ok
    &&& r->Ok_0.messages@.len() == 1
    &&& match r->Ok_0.messages@[0] {
        CosmosMsg::ChangeMinter { contract_addr, new_minter: m } => contract_addr@ == contract
            && m@ == new_minter,
        _ => false,
    }
}

/// Success, with one transfer of `amount` to `to`.
pub open spec fn sends_transfer(
    r: Result<Response, ContractError>,
    to: Seq<char>,
    amount: Seq<Coin>,
) -> bool {
    &&& r is Ok
    &&& r->Ok_0.messages@.len() == 1
    &&& match r->Ok_0.messages@[0] {
        CosmosMsg::BankSend { to_address, amount: a } => to_address@ == to && a@ == amount,
        _ => false,
    }
}

/// The identifiers that a successful mint tells the issuing service to create.
pub open spec fn minted_ids(r: Response) -> Seq<Seq<char>> {
    match r.messages@[0] {
        CosmosMsg::Mint { token_ids, .. } => ids_of(token_ids@),
        _ => Seq::empty(),
    }
}

/// The amount that a successful withdrawal sends.
pub open spec fn transferred(r: Response) -> Seq<Coin> {
    match r.messages@[0] {
        CosmosMsg::BankSend { amount, .. } => amount@,
        _ => Seq::empty(),
    }
}

/// The pool after adding every id of `add`, then removing every id of `remove`.
pub open spec fn pool_after_update(
    pool: Set<Seq<char>>,
    add: Seq<Seq<char>>,
    remove: Seq<Seq<char>>,
) -> Set<Seq<char>> {
    pool.union(add.to_set()).difference(remove.to_set())
}

impl Cw721Controller {
    /// The identifiers still eligible, in ascending order.
    pub open spec fn pool(&self) -> Seq<Seq<char>> {
        ids_of(self.allowed_token_ids@)
    }

    pub open spec fn wf(&self) -> bool {
        sorted_ids(self.pool())
    }

    pub open spec fn pool_set(&self) -> Set<Seq<char>> {
        self.pool().to_set()
    }

    /// Every field but the price and the pool agrees.
    pub open spec fn same_settings(&self, o: &Self) -> bool {
        &&& self.collection_info == o.collection_info
        &&& self.owner == o.owner
        &&& self.mint_cap == o.mint_cap
        &&& self.nft_contract_addr == o.nft_contract_addr
    }

    pub open spec fn is_owner(&self, sender: Seq<char>) -> bool {
        sender == self.owner@
    }

    pub open spec fn update_post(
        pre: Self,
        post: Self,
        sender: Seq<char>,
        add: Seq<Seq<char>>,
        remove: Seq<Seq<char>>,
        r: Result<Response, ContractError>,
    ) -> bool {
        if !pre.is_owner(sender) {
            r == Err::<Response, ContractError>(ContractError::Unauthorized) && post == pre
        } else {
            &&& sends_nothing(r)
            &&& post.wf()
            &&& post.same_settings(&pre)
            &&& post.uluna_price == pre.uluna_price
            &&& post.pool_set() == pool_after_update(pre.pool_set(), add, remove)
        }
    }

    pub open spec fn mint_post(
        pre: Self,
        post: Self,
        funds: Seq<Coin>,
        owner: Seq<char>,
        how_many: u32,
        r: Result<Response, ContractError>,
    ) -> bool {
        if funds_in(funds, payment_denom()) != pre.uluna_price as int * how_many as int {
            r == Err::<Response, ContractError>(ContractError::InsufficientFunds) && post == pre
        } else if how_many > pre.pool().len() {
            r == Err::<Response, ContractError>(ContractError::InsufficientInventory) && post
                == pre
        } else {
            &&& sends_mint(r, pre.nft_contract_addr@, owner, pre.pool().take(how_many as int))
            &&& post.wf()
            &&& post.same_settings(&pre)
            &&& post.uluna_price == pre.uluna_price
            &&& post.pool() == pre.pool().skip(how_many as int)
        }
    }

    pub open spec fn change_minter_post(
        pre: Self,
        post: Self,
        sender: Seq<char>,
        new_minter: Seq<char>,
        r: Result<Response, ContractError>,
    ) -> bool {
        &&& post == pre
        &&& if !pre.is_owner(sender) {
            r == Err::<Response, ContractError>(ContractError::Unauthorized)
        } else {
            sends_change_minter(r, pre.nft_contract_addr@, new_minter)
        }
    }

    pub open spec fn withdraw_post(
        pre: Self,
        post: Self,
        sender: Seq<char>,
        to_address: Seq<char>,
        balance: Seq<Coin>,
        r: Result<Response, ContractError>,
    ) -> bool {
        &&& post == pre
        &&& if !pre.is_owner(sender) {
            r == Err::<Response, ContractError>(ContractError::Unauthorized)
        } else {
            sends_transfer(r, to_address, balance)
        }
    }

    pub open spec fn change_price_post(
        pre: Self,
        post: Self,
        sender: Seq<char>,
        new_price: u32,
        r: Result<Response, ContractError>,
    ) -> bool {
        if !pre.is_owner(sender) {
            r == Err::<Response, ContractError>(ContractError::Unauthorized) && post == pre
        } else {
            &&& sends_nothing(r)
            &&& post.wf()
            &&& post.same_settings(&pre)
            &&& post.uluna_price == new_price
            &&& post.pool() == pre.pool()
        }
    }

    /// What `execute` does with each request.
    pub open spec fn execute_post(
        pre: Self,
        post: Self,
        sender: Seq<char>,
        funds: Seq<Coin>,
        balance: Seq<Coin>,
        msg: MyExecuteMsg,
        r: Result<Response, ContractError>,
    ) -> bool {
        match msg {
            MyExecuteMsg::UpdateAllowedTokenIds { add, remove } => Self::update_post(
                pre,
                post,
                sender,
                ids_of(add@),
                ids_of(remove@),
                r,
            ),
            MyExecuteMsg::ChangeMinter { new_minter } => Self::change_minter_post(
                pre,
                post,
                sender,
                new_minter@,
                r,
            ),
            MyExecuteMsg::ChangePrice { new_price } => Self::change_price_post(
                pre,
                post,
                sender,
                new_price,
                r,
            ),
            MyExecuteMsg::Withdraw { to_address } => Self::withdraw_post(
                pre,
                post,
                sender,
                to_address@,
                balance,
                r,
            ),
            MyExecuteMsg::MintNft { owner, how_many } => Self::mint_post(
                pre,
                post,
                funds,
                owner@,
                how_many,
                r,
            ),
        }
    }

    /// A new controller owned by `sender`, with an empty pool.
    pub fn instantiate(sender: String, msg: InstantiateMsg) -> (r: Self)
        ensures
            r.wf(),
            r.owner == sender,
            r.collection_info.name == msg.collection_name,
            r.collection_info.symbol == msg.collection_symbol,
            r.uluna_price == msg.uluna_price,
            r.mint_cap == msg.mint_cap,
            r.nft_contract_addr == msg.nft_contract_addr,
            r.pool() == Seq::<Seq<char>>::empty(),
    {
        let r = Cw721Controller {
            collection_info: ContractInfoResponse {
                name: msg.collection_name,
                symbol: msg.collection_symbol,
            },
            owner: sender,
            uluna_price: msg.uluna_price,
            mint_cap: msg.mint_cap,
            nft_contract_addr: msg.nft_contract_addr,
            allowed_token_ids: Vec::new(),
        };
        assert(r.pool() =~= Seq::<Seq<char>>::empty());
        r
    }

    fn unauthorized(&self, sender: &String) -> (r: bool)
        ensures
            r == !self.is_owner(sender@),
    {
        !sender.eq(&self.owner)
    }

    /// Routes a request to the operation that handles it.
    pub fn execute(
        &mut self,
        sender: &String,
        funds: &Vec<Coin>,
        balance: Vec<Coin>,
        msg: MyExecuteMsg,
    ) -> (r: Result<Response, ContractError>)
        requires
            old(self).wf(),
        ensures
            Self::execute_post(*old(self), *final(self), sender@, funds@, balance@, msg, r),
    {
        match msg {
            MyExecuteMsg::UpdateAllowedTokenIds { add, remove } => {
                self.update_allowed_token_ids(sender, &add, &remove)
            },
            MyExecuteMsg::ChangeMinter { new_minter } => self.change_minter(sender, new_minter),
            MyExecuteMsg::ChangePrice { new_price } => self.change_price(sender, new_price),
            MyExecuteMsg::Withdraw { to_address } => self.withdraw(sender, to_address, balance),
            MyExecuteMsg::MintNft { owner, how_many } => self.mint_nft(funds, owner, how_many),
        }
    }

    /// Owner only: adds each id of `add` to the pool, then takes each id of
    /// `remove` out of it. Ids already there, or absent, are no error.
    pub fn update_allowed_token_ids(
        &mut self,
        sender: &String,
        add: &Vec<String>,
        remove: &Vec<String>,
    ) -> (r: Result<Response, ContractError>)
        requires
            old(self).wf(),
        ensures
            Self::update_post(*old(self), *final(self), sender@, ids_of(add@), ids_of(remove@), r),
    {
        if self.unauthorized(sender) {
            return Err(ContractError::Unauthorized);
        }
        let ghost start = self.pool_set();
        let ghost adds = ids_of(add@);
        let ghost removes = ids_of(remove@);
        let mut i: usize = 0;
        while i < add.len()
            invariant
                self.same_settings(old(self)),
                self.uluna_price == old(self).uluna_price,
                self.wf(),
                start == old(self).pool_set(),
                adds == ids_of(add@),
                i <= add@.len(),
                self.pool_set() == start.union(adds.take(i as int).to_set()),
            decreases add@.len() - i,
        {
            insert_id(&mut self.allowed_token_ids, &add[i]);
            proof {
                assert(adds.take(i + 1) =~= adds.take(i as int).push(adds[i as int]));
                assert(adds.take(i + 1).to_set() =~= adds.take(i as int).to_set().insert(
                    adds[i as int],
                )) by {
                    adds.take(i as int).lemma_push_to_set_commute(adds[i as int]);
                }
                assert(self.pool_set() =~= start.union(adds.take(i + 1).to_set()));
            }
            i = i + 1;
        }
        assert(adds.take(i as int) =~= adds);
        let ghost added = self.pool_set();
        let mut j: usize = 0;
        while j < remove.len()
            invariant
                self.same_settings(old(self)),
                self.uluna_price == old(self).uluna_price,
                self.wf(),
                added == start.union(adds.to_set()),
                removes == ids_of(remove@),
                j <= remove@.len(),
                self.pool_set() == added.difference(removes.take(j as int).to_set()),
            decreases remove@.len() - j,
        {
            remove_id(&mut self.allowed_token_ids, &remove[j]);
            proof {
                assert(removes.take(j + 1) =~= removes.take(j as int).push(removes[j as int]));
                assert(removes.take(j + 1).to_set() =~= removes.take(j as int).to_set().insert(
                    removes[j as int],
                )) by {
                    removes.take(j as int).lemma_push_to_set_commute(removes[j as int]);
                }
                assert(self.pool_set() =~= added.difference(removes.take(j + 1).to_set()));
            }
            j = j + 1;
        }
        assert(removes.take(j as int) =~= removes);
        Ok(Response { messages: Vec::new() })
    }

    /// Anyone may mint: for exactly `uluna_price * how_many` in the
    /// controller's currency, draws the `how_many` smallest identifiers of
    /// the pool and tells the issuing service to create them for `owner`.
    pub fn mint_nft(&mut self, funds: &Vec<Coin>, owner: String, how_many: u32) -> (r: Result<
        Response,
        ContractError,
    >)
        requires
            old(self).wf(),
        ensures
            Self::mint_post(*old(self), *final(self), funds@, owner@, how_many, r),
    {
        if !pays_exactly(funds, self.uluna_price, how_many) {
            return Err(ContractError::InsufficientFunds);
        }
        if how_many as usize > self.allowed_token_ids.len() {
            return Err(ContractError::InsufficientInventory);
        }
        let ghost before = self.allowed_token_ids@;
        let token_ids = draw_ids(&mut self.allowed_token_ids, how_many as usize);
        proof {
            assert(ids_of(token_ids@) =~= ids_of(before).take(how_many as int));
            assert(self.pool() =~= ids_of(before).skip(how_many as int));
        }
        let contract_addr = self.nft_contract_addr.clone();
        let mut messages: Vec<CosmosMsg> = Vec::new();
        messages.push(CosmosMsg::Mint { contract_addr, owner, token_ids });
        Ok(Response { messages })
    }

    /// Owner only: tells the issuing service that `new_minter` mints from
    /// now on. The controller's own state is left as it is.
    pub fn change_minter(&self, sender: &String, new_minter: String) -> (r: Result<
        Response,
        ContractError,
    >)
        ensures
            Self::change_minter_post(*self, *self, sender@, new_minter@, r),
    {
        if self.unauthorized(sender) {
            return Err(ContractError::Unauthorized);
        }
        let contract_addr = self.nft_contract_addr.clone();
        let mut messages: Vec<CosmosMsg> = Vec::new();
        messages.push(CosmosMsg::ChangeMinter { contract_addr, new_minter });
        Ok(Response { messages })
    }

    /// Owner only: sends the whole `balance` of the controller's account to
    /// `to_address`.
    pub fn withdraw(&self, sender: &String, to_address: String, balance: Vec<Coin>) -> (r: Result<
        Response,
        ContractError,
    >)
        ensures
            Self::withdraw_post(*self, *self, sender@, to_address@, balance@, r),
    {
        if self.unauthorized(sender) {
            return Err(ContractError::Unauthorized);
        }
        let mut messages: Vec<CosmosMsg> = Vec::new();
        messages.push(CosmosMsg::BankSend { to_address, amount: balance });
        Ok(Response { messages })
    }

    /// Owner only: sets the price of one identifier.
    pub fn change_price(&mut self, sender: &String, new_price: u32) -> (r: Result<
        Response,
        ContractError,
    >)
        requires
            old(self).wf(),
        ensures
            Self::change_price_post(*old(self), *final(self), sender@, new_price, r),
    {
        if self.unauthorized(sender) {
            return Err(ContractError::Unauthorized);
        }
        self.uluna_price = new_price;
        Ok(Response { messages: Vec::new() })
    }

    pub fn owner(&self) -> (r: OwnerResponse)
        ensures
            r.owner@ == self.owner@,
    {
        OwnerResponse { owner: self.owner.clone() }
    }

    pub fn collection_info(&self) -> (r: ContractInfoResponse)
        ensures
            r.name@ == self.collection_info.name@,
            r.symbol@ == self.collection_info.symbol@,
    {
        ContractInfoResponse {
            name: self.collection_info.name.clone(),
            symbol: self.collection_info.symbol.clone(),
        }
    }

    /// Answers a read-only request.
    pub fn query(&self, msg: QueryMsg) -> (r: QueryResponse)
        ensures
            match msg {
                QueryMsg::Owner {  } => r matches QueryResponse::Owner(o) && o.owner@
                    == self.owner@,
                QueryMsg::ContractInfo {  } => r matches QueryResponse::ContractInfo(c)
                    && c.name@ == self.collection_info.name@ && c.symbol@
                    == self.collection_info.symbol@,
            },
    {
        match msg {
            QueryMsg::Owner {  } => QueryResponse::Owner(self.owner()),
            QueryMsg::ContractInfo {  } => QueryResponse::ContractInfo(self.collection_info()),
        }
    }

    /// The identifiers still eligible, in ascending order.
    pub fn allowed_token_ids(&self) -> (r: Vec<String>)
        ensures
            ids_of(r@) == self.pool(),
    {
        let mut r: Vec<String> = Vec::new();
        let mut i: usize = 0;
        while i < self.allowed_token_ids.len()
            invariant
                i <= self.allowed_token_ids@.len(),
                r@ == self.allowed_token_ids@.take(i as int),
            decreases self.allowed_token_ids@.len() - i,
        {
            r.push(self.allowed_token_ids[i].clone());
            proof {
                assert(r@ =~= self.allowed_token_ids@.take(i + 1));
            }
            i = i + 1;
        }
        assert(r@ =~= self.allowed_token_ids@);
        r
    }
}

} // verus!
