//! The messages that the contract accepts.

use crate::results::{AttributeView, BankMsg, BankMsgView, Coin, CoinView, ReplyOn, pairs_view};
use crate::state::Buffer;
use crate::views::{text_view, views};
use vstd::prelude::*;

verus! {

/// The message that sets the contract up. It carries nothing.
#[derive(Clone, Debug, PartialEq, Eq)]
pub struct InstantiateMsg {}

/// A request to the contract.
#[derive(Debug, PartialEq)]
#[allow(inconsistent_fields)]
pub enum ExecuteMsg {
    /// Puts `data` on top of the buffer.
    Push { data: String },
    /// Takes the top of the buffer off and hands it back as the payload.
    Pop {},
    /// Runs the commands of `program` in order.
    Run { program: Vec<Command> },
    /// Empties the buffer.
    Reset {},
    /// Accepted on the wire, and not served.
    Query {},
    /// Accepted on the wire, and not served.
    Debug { msg: String },
    /// Accepted on the wire, and not served.
    Instantiate {
        code_id: u64,
        admin: Option<String>,
        msg: Vec<u8>,
        funds: Vec<Coin>,
        label: String,
    },
}

/// One instruction of a program.
#[derive(Debug, PartialEq)]
pub enum Command {
    /// Emits an event of the given type with the given attributes.
    Ev(String, Vec<(String, String)>),
    /// Adds an attribute to the response.
    Attr(String, String),
    /// Runs a request on this contract and takes over what it responds.
    Msg(ExecuteMsg),
    /// Registers a request to the bank.
    BankMsg(BankMsg),
    /// Registers a request to this contract whose completion is reported
    /// under the given id, according to the given policy.
    Sub(u64, ExecuteMsg, ReplyOn),
    /// Sets the payload of the response.
    Data(Vec<u8>),
    /// Stops the program with the given message.
    Throw(String),
}

/// What an [`ExecuteMsg`] holds.
#[allow(inconsistent_fields)]
pub enum ExecuteMsgView {
    Push { data: Seq<char> },
    Pop,
    Run { program: Seq<CommandView> },
    Reset,
    Query,
    Debug { msg: Seq<char> },
    Instantiate {
        code_id: u64,
        admin: Option<Seq<char>>,
        msg: Seq<u8>,
        funds: Seq<CoinView>,
        label: Seq<char>,
    },
}

/// What a [`Command`] holds.
pub enum CommandView {
    Ev(Seq<char>, Seq<AttributeView>),
    Attr(Seq<char>, Seq<char>),
    Msg(ExecuteMsgView),
    BankMsg(BankMsgView),
    Sub(u64, ExecuteMsgView, ReplyOn),
    Data(Seq<u8>),
    Throw(Seq<char>),
}

/// The view of a request, nested programs included.
pub open spec fn msg_view(msg: ExecuteMsg) -> ExecuteMsgView
    decreases msg,
{
    match msg {
        ExecuteMsg::Push { data } => ExecuteMsgView::Push { data: data@ },
        ExecuteMsg::Pop {  } => ExecuteMsgView::Pop,
        ExecuteMsg::Run { program } => ExecuteMsgView::Run {
            program: program_view(program@, program@.len() as int),
        },
        ExecuteMsg::Reset {  } => ExecuteMsgView::Reset,
        ExecuteMsg::Query {  } => ExecuteMsgView::Query,
        ExecuteMsg::Debug { msg } => ExecuteMsgView::Debug { msg: msg@ },
        ExecuteMsg::Instantiate { code_id, admin, msg, funds, label } => {
            ExecuteMsgView::Instantiate {
                code_id,
                admin: text_view(admin),
                msg: msg@,
                funds: views(funds@),
                label: label@,
            }
        },
    }
}

/// The view of a command, nested requests included.
pub open spec fn command_view(cmd: Command) -> CommandView
    decreases cmd,
{
    match cmd {
        Command::Ev(ty, attrs) => CommandView::Ev(ty@, pairs_view(attrs@)),
        Command::Attr(key, value) => CommandView::Attr(key@, value@),
        Command::Msg(msg) => CommandView::Msg(msg_view(msg)),
        Command::BankMsg(msg) => CommandView::BankMsg(msg@),
        Command::Sub(id, msg, reply_on) => CommandView::Sub(id, msg_view(msg), reply_on),
        Command::Data(data) => CommandView::Data(data@),
        Command::Throw(msg) => CommandView::Throw(msg@),
    }
}

/// The views of the first `k` commands of `program`, in order.
pub open spec fn program_view(program: Seq<Command>, k: int) -> Seq<CommandView>
    decreases program, k,
{
    if k <= 0 {
        Seq::empty()
    } else if k > program.len() {
        program_view(program, k - 1)
    } else {
        program_view(program, k - 1).push(command_view(program[k - 1]))
    }
}

impl View for ExecuteMsg {
    type V = ExecuteMsgView;

    open spec fn view(&self) -> ExecuteMsgView {
        msg_view(*self)
    }
}

impl View for Command {
    type V = CommandView;

    open spec fn view(&self) -> CommandView {
        command_view(*self)
    }
}

/// The view of a program is the views of its commands, one for one.
pub proof fn lemma_program_view(program: Seq<Command>, k: int)
    requires
        0 <= k <= program.len(),
    ensures
        program_view(program, k) == views(program.take(k)),
    decreases k,
{
    if k > 0 {
        lemma_program_view(program, k - 1);
        assert(program.take(k - 1).push(program[k - 1]) =~= program.take(k));
        assert(views(program.take(k)) =~= views(program.take(k - 1)).push(program[k - 1]@));
    } else {
        assert(views(program.take(k)) =~= Seq::empty());
    }
}

/// A question to the contract.
#[derive(Clone, Debug, PartialEq, Eq)]
pub enum QueryMsg {
    /// Asks for the buffer.
    GetBuffer {},
}

/// The answer to [`QueryMsg::GetBuffer`].
#[derive(Clone, Debug, PartialEq, Eq)]
pub struct GetBufferResponse {
    pub buffer: Buffer,
}

} // verus!
