//! Names of the broker topology: one topic exchange, four queues,
//! and the routing key each queue is bound under. The connection and
//! the publishes themselves are network calls made by the surrounding
//! application.

use vstd::prelude::*;

verus! {

/// Name of the AMQP exchange for telemetry messages.
pub const EXCHANGE_NAME_TELEMETRY: &'static str = "telemetry";

/// Name of the AMQP queue for ADS-B messages.
pub const QUEUE_NAME_ADSB: &'static str = "adsb";

/// Routing key for ADS-B messages.
pub const ROUTING_KEY_ADSB: &'static str = "adsb";

/// Name of the AMQP queue for Remote-ID identification messages.
pub const QUEUE_NAME_NETRID_ID: &'static str = "netrid_id";

/// Name of the AMQP queue for Remote-ID position messages.
pub const QUEUE_NAME_NETRID_POSITION: &'static str = "netrid_pos";

/// Name of the AMQP queue for Remote-ID velocity messages.
pub const QUEUE_NAME_NETRID_VELOCITY: &'static str = "netrid_vel";

/// Routing key for Remote-ID identification messages.
pub const ROUTING_KEY_NETRID_ID: &'static str = "netrid:id";

/// Routing key for Remote-ID position messages.
pub const ROUTING_KEY_NETRID_POSITION: &'static str = "netrid:pos";

/// Routing key for Remote-ID velocity messages.
pub const ROUTING_KEY_NETRID_VELOCITY: &'static str = "netrid:vel";

/// Custom error type for broker errors.
#[derive(Debug, Copy, Clone, PartialEq, Eq, Structural)]
pub enum AMQPError {
    /// Could not publish.
    CouldNotPublish,
    /// Could not connect to the AMQP pool.
    CouldNotConnect,
    /// Missing configuration.
    MissingConfiguration,
    /// Could not create channel.
    CouldNotCreateChannel,
    /// Could not declare queue.
    CouldNotDeclareQueue,
    /// Could not bind queue.
    CouldNotBindQueue,
    /// Could not declare exchange.
    CouldNotDeclareExchange,
}

impl AMQPError {
    /// Human-readable description of the error.
    pub fn message(&self) -> (r: String)
        ensures
            self is CouldNotPublish ==> r@ == "Could not publish to queue."@,
            self is CouldNotConnect ==> r@ == "Could not connect to amqp pool."@,
            self is MissingConfiguration ==> r@
                == "Missing configuration for amqp pool connection."@,
            self is CouldNotCreateChannel ==> r@ == "Could not create channel."@,
            self is CouldNotDeclareQueue ==> r@ == "Could not declare queue."@,
            self is CouldNotBindQueue ==> r@ == "Could not bind queue."@,
            self is CouldNotDeclareExchange ==> r@ == "Could not declare exchange."@,
    {
        match self {
            AMQPError::CouldNotPublish => String::from_str("Could not publish to queue."),
            AMQPError::CouldNotConnect => String::from_str("Could not connect to amqp pool."),
            AMQPError::MissingConfiguration => String::from_str(
                "Missing configuration for amqp pool connection.",
            ),
            AMQPError::CouldNotCreateChannel => String::from_str("Could not create channel."),
            AMQPError::CouldNotDeclareQueue => String::from_str("Could not declare queue."),
            AMQPError::CouldNotBindQueue => String::from_str("Could not bind queue."),
            AMQPError::CouldNotDeclareExchange => String::from_str("Could not declare exchange."),
        }
    }
}

} // verus!
